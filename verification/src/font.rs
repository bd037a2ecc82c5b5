//! The icon, color and sound-effect symbol tables: pure lookups from small
//! numeric codes to human names. An in-range code yields its symbolic name;
//! an out-of-range code degrades to its decimal rendering, never an error.
use crate::textutil::dec_chars;
use crate::textutil::dec_units;
use crate::textutil::str_units;
use crate::textutil::units_of_str;
use crate::textutil::push_dec_units;
use vstd::prelude::*;
use vstd::string::StringExecFns;

verus! {

/// The icons a text control record can name.
#[derive(Debug, Clone, Copy, PartialEq, Eq, Structural)]
pub enum PicIcon {
    AButton,
    BButton,
    CButton,
    WiiRemote,
    NumChuck,
    OneButton,
    TwoButton,
    Star,
    LaunchStar,
    PullStar,
    PullStarIcon,
    StarBit,
    Coconut,
    Bell,
    StarBunny,
    NumChuckPad,
    XMark,
    Coin,
    Mario,
    DPad,
    PullStarChip,
    LaunchStarChip,
    HomeButton,
    MinusButton,
    PlusButton,
    ZButton,
    SilverStar,
    GrandStar,
    Luigi,
    LaunchStarIcon,
    PurpleCoin,
    GreenStar,
    Crown,
    CannonPoint,
    Space,
    RedStar,
    HandClosed,
    HandPointer,
    HandOpen,
    RainbowStarBit,
    Peach,
    Mail,
    QuestionMark,
    MarioOrLuigi,
    OneUp,
    LifeShroom,
    HungryLuma,
    Polari,
    Comet,
    GreenQuestionMark,
}

/// The icon a code selects: two known sub-ranges, nothing in between.
pub open spec fn spec_pic_icon(num: u16) -> Option<PicIcon> {
    if num == 0 {
        Some(PicIcon::AButton)
    } else if num == 1 {
        Some(PicIcon::BButton)
    } else if num == 2 {
        Some(PicIcon::CButton)
    } else if num == 3 {
        Some(PicIcon::WiiRemote)
    } else if num == 4 {
        Some(PicIcon::NumChuck)
    } else if num == 5 {
        Some(PicIcon::OneButton)
    } else if num == 6 {
        Some(PicIcon::TwoButton)
    } else if num == 7 {
        Some(PicIcon::Star)
    } else if num == 8 {
        Some(PicIcon::LaunchStar)
    } else if num == 9 {
        Some(PicIcon::PullStar)
    } else if num == 10 {
        Some(PicIcon::PullStarIcon)
    } else if num == 11 {
        Some(PicIcon::StarBit)
    } else if num == 12 {
        Some(PicIcon::Coconut)
    } else if num == 13 {
        Some(PicIcon::Bell)
    } else if num == 14 {
        Some(PicIcon::StarBunny)
    } else if num == 15 {
        Some(PicIcon::NumChuckPad)
    } else if num == 16 {
        Some(PicIcon::XMark)
    } else if num == 17 {
        Some(PicIcon::Coin)
    } else if num == 18 {
        Some(PicIcon::Mario)
    } else if num == 19 {
        Some(PicIcon::DPad)
    } else if num == 20 {
        Some(PicIcon::PullStarChip)
    } else if num == 21 {
        Some(PicIcon::LaunchStarChip)
    } else if num == 22 {
        Some(PicIcon::HomeButton)
    } else if num == 23 {
        Some(PicIcon::MinusButton)
    } else if num == 24 {
        Some(PicIcon::PlusButton)
    } else if num == 25 {
        Some(PicIcon::ZButton)
    } else if num == 26 {
        Some(PicIcon::SilverStar)
    } else if num == 27 {
        Some(PicIcon::GrandStar)
    } else if num == 28 {
        Some(PicIcon::Luigi)
    } else if num == 29 {
        Some(PicIcon::LaunchStarIcon)
    } else if num == 30 {
        Some(PicIcon::PurpleCoin)
    } else if num == 31 {
        Some(PicIcon::GreenStar)
    } else if num == 32 {
        Some(PicIcon::Crown)
    } else if num == 33 {
        Some(PicIcon::CannonPoint)
    } else if num == 34 {
        Some(PicIcon::Space)
    } else if num == 35 {
        Some(PicIcon::RedStar)
    } else if num == 36 {
        Some(PicIcon::HandClosed)
    } else if num == 37 {
        Some(PicIcon::HandPointer)
    } else if num == 38 {
        Some(PicIcon::HandOpen)
    } else if num == 39 {
        Some(PicIcon::RainbowStarBit)
    } else if num == 40 {
        Some(PicIcon::Peach)
    } else if num == 41 {
        Some(PicIcon::Mail)
    } else if num == 42 {
        Some(PicIcon::QuestionMark)
    } else if num == 43 {
        Some(PicIcon::MarioOrLuigi)
    } else if num == 49 {
        Some(PicIcon::OneUp)
    } else if num == 50 {
        Some(PicIcon::LifeShroom)
    } else if num == 51 {
        Some(PicIcon::HungryLuma)
    } else if num == 52 {
        Some(PicIcon::Polari)
    } else if num == 53 {
        Some(PicIcon::Comet)
    } else if num == 54 {
        Some(PicIcon::GreenQuestionMark)
    } else {
        None
    }
}

/// The lower-cased bracket tag an icon renders as.
pub open spec fn icon_units(p: PicIcon) -> Seq<u16> {
    match p {
        PicIcon::AButton => str_units("[icon:abutton]"),
        PicIcon::BButton => str_units("[icon:bbutton]"),
        PicIcon::CButton => str_units("[icon:cbutton]"),
        PicIcon::WiiRemote => str_units("[icon:wiiremote]"),
        PicIcon::NumChuck => str_units("[icon:numchuck]"),
        PicIcon::OneButton => str_units("[icon:onebutton]"),
        PicIcon::TwoButton => str_units("[icon:twobutton]"),
        PicIcon::Star => str_units("[icon:star]"),
        PicIcon::LaunchStar => str_units("[icon:launchstar]"),
        PicIcon::PullStar => str_units("[icon:pullstar]"),
        PicIcon::PullStarIcon => str_units("[icon:pullstaricon]"),
        PicIcon::StarBit => str_units("[icon:starbit]"),
        PicIcon::Coconut => str_units("[icon:coconut]"),
        PicIcon::Bell => str_units("[icon:bell]"),
        PicIcon::StarBunny => str_units("[icon:starbunny]"),
        PicIcon::NumChuckPad => str_units("[icon:numchuckpad]"),
        PicIcon::XMark => str_units("[icon:xmark]"),
        PicIcon::Coin => str_units("[icon:coin]"),
        PicIcon::Mario => str_units("[icon:mario]"),
        PicIcon::DPad => str_units("[icon:dpad]"),
        PicIcon::PullStarChip => str_units("[icon:pullstarchip]"),
        PicIcon::LaunchStarChip => str_units("[icon:launchstarchip]"),
        PicIcon::HomeButton => str_units("[icon:homebutton]"),
        PicIcon::MinusButton => str_units("[icon:minusbutton]"),
        PicIcon::PlusButton => str_units("[icon:plusbutton]"),
        PicIcon::ZButton => str_units("[icon:zbutton]"),
        PicIcon::SilverStar => str_units("[icon:silverstar]"),
        PicIcon::GrandStar => str_units("[icon:grandstar]"),
        PicIcon::Luigi => str_units("[icon:luigi]"),
        PicIcon::LaunchStarIcon => str_units("[icon:launchstaricon]"),
        PicIcon::PurpleCoin => str_units("[icon:purplecoin]"),
        PicIcon::GreenStar => str_units("[icon:greenstar]"),
        PicIcon::Crown => str_units("[icon:crown]"),
        PicIcon::CannonPoint => str_units("[icon:cannonpoint]"),
        PicIcon::Space => str_units("[icon:space]"),
        PicIcon::RedStar => str_units("[icon:redstar]"),
        PicIcon::HandClosed => str_units("[icon:handclosed]"),
        PicIcon::HandPointer => str_units("[icon:handpointer]"),
        PicIcon::HandOpen => str_units("[icon:handopen]"),
        PicIcon::RainbowStarBit => str_units("[icon:rainbowstarbit]"),
        PicIcon::Peach => str_units("[icon:peach]"),
        PicIcon::Mail => str_units("[icon:mail]"),
        PicIcon::QuestionMark => str_units("[icon:questionmark]"),
        PicIcon::MarioOrLuigi => str_units("[icon:marioorluigi]"),
        PicIcon::OneUp => str_units("[icon:oneup]"),
        PicIcon::LifeShroom => str_units("[icon:lifeshroom]"),
        PicIcon::HungryLuma => str_units("[icon:hungryluma]"),
        PicIcon::Polari => str_units("[icon:polari]"),
        PicIcon::Comet => str_units("[icon:comet]"),
        PicIcon::GreenQuestionMark => str_units("[icon:greenquestionmark]"),
    }
}

/// What an icon code renders as: the icon tag when the code is known,
/// else the decimal code itself.
pub open spec fn spec_icon_text(num: u16) -> Seq<u16> {
    match spec_pic_icon(num) {
        Some(p) => icon_units(p),
        None => dec_units(num as nat),
    }
}

impl PicIcon {
    /// The icon a code selects, if the code is known.
    #[verifier::rlimit(30)]
    pub fn new(num: u16) -> (r: Option<PicIcon>)
        ensures
            r == spec_pic_icon(num),
    {
        match num {
            0 => Some(PicIcon::AButton),
            1 => Some(PicIcon::BButton),
            2 => Some(PicIcon::CButton),
            3 => Some(PicIcon::WiiRemote),
            4 => Some(PicIcon::NumChuck),
            5 => Some(PicIcon::OneButton),
            6 => Some(PicIcon::TwoButton),
            7 => Some(PicIcon::Star),
            8 => Some(PicIcon::LaunchStar),
            9 => Some(PicIcon::PullStar),
            10 => Some(PicIcon::PullStarIcon),
            11 => Some(PicIcon::StarBit),
            12 => Some(PicIcon::Coconut),
            13 => Some(PicIcon::Bell),
            14 => Some(PicIcon::StarBunny),
            15 => Some(PicIcon::NumChuckPad),
            16 => Some(PicIcon::XMark),
            17 => Some(PicIcon::Coin),
            18 => Some(PicIcon::Mario),
            19 => Some(PicIcon::DPad),
            20 => Some(PicIcon::PullStarChip),
            21 => Some(PicIcon::LaunchStarChip),
            22 => Some(PicIcon::HomeButton),
            23 => Some(PicIcon::MinusButton),
            24 => Some(PicIcon::PlusButton),
            25 => Some(PicIcon::ZButton),
            26 => Some(PicIcon::SilverStar),
            27 => Some(PicIcon::GrandStar),
            28 => Some(PicIcon::Luigi),
            29 => Some(PicIcon::LaunchStarIcon),
            30 => Some(PicIcon::PurpleCoin),
            31 => Some(PicIcon::GreenStar),
            32 => Some(PicIcon::Crown),
            33 => Some(PicIcon::CannonPoint),
            34 => Some(PicIcon::Space),
            35 => Some(PicIcon::RedStar),
            36 => Some(PicIcon::HandClosed),
            37 => Some(PicIcon::HandPointer),
            38 => Some(PicIcon::HandOpen),
            39 => Some(PicIcon::RainbowStarBit),
            40 => Some(PicIcon::Peach),
            41 => Some(PicIcon::Mail),
            42 => Some(PicIcon::QuestionMark),
            43 => Some(PicIcon::MarioOrLuigi),
            49 => Some(PicIcon::OneUp),
            50 => Some(PicIcon::LifeShroom),
            51 => Some(PicIcon::HungryLuma),
            52 => Some(PicIcon::Polari),
            53 => Some(PicIcon::Comet),
            54 => Some(PicIcon::GreenQuestionMark),
            _ => None,
        }
    }

    /// This icon's lower-cased bracket tag as UTF-16 code units.
    pub fn as_utf16(self) -> (r: Vec<u16>)
        ensures
            r@ == icon_units(self),
    {
        match self {
            PicIcon::AButton => units_of_str("[icon:abutton]"),
            PicIcon::BButton => units_of_str("[icon:bbutton]"),
            PicIcon::CButton => units_of_str("[icon:cbutton]"),
            PicIcon::WiiRemote => units_of_str("[icon:wiiremote]"),
            PicIcon::NumChuck => units_of_str("[icon:numchuck]"),
            PicIcon::OneButton => units_of_str("[icon:onebutton]"),
            PicIcon::TwoButton => units_of_str("[icon:twobutton]"),
            PicIcon::Star => units_of_str("[icon:star]"),
            PicIcon::LaunchStar => units_of_str("[icon:launchstar]"),
            PicIcon::PullStar => units_of_str("[icon:pullstar]"),
            PicIcon::PullStarIcon => units_of_str("[icon:pullstaricon]"),
            PicIcon::StarBit => units_of_str("[icon:starbit]"),
            PicIcon::Coconut => units_of_str("[icon:coconut]"),
            PicIcon::Bell => units_of_str("[icon:bell]"),
            PicIcon::StarBunny => units_of_str("[icon:starbunny]"),
            PicIcon::NumChuckPad => units_of_str("[icon:numchuckpad]"),
            PicIcon::XMark => units_of_str("[icon:xmark]"),
            PicIcon::Coin => units_of_str("[icon:coin]"),
            PicIcon::Mario => units_of_str("[icon:mario]"),
            PicIcon::DPad => units_of_str("[icon:dpad]"),
            PicIcon::PullStarChip => units_of_str("[icon:pullstarchip]"),
            PicIcon::LaunchStarChip => units_of_str("[icon:launchstarchip]"),
            PicIcon::HomeButton => units_of_str("[icon:homebutton]"),
            PicIcon::MinusButton => units_of_str("[icon:minusbutton]"),
            PicIcon::PlusButton => units_of_str("[icon:plusbutton]"),
            PicIcon::ZButton => units_of_str("[icon:zbutton]"),
            PicIcon::SilverStar => units_of_str("[icon:silverstar]"),
            PicIcon::GrandStar => units_of_str("[icon:grandstar]"),
            PicIcon::Luigi => units_of_str("[icon:luigi]"),
            PicIcon::LaunchStarIcon => units_of_str("[icon:launchstaricon]"),
            PicIcon::PurpleCoin => units_of_str("[icon:purplecoin]"),
            PicIcon::GreenStar => units_of_str("[icon:greenstar]"),
            PicIcon::Crown => units_of_str("[icon:crown]"),
            PicIcon::CannonPoint => units_of_str("[icon:cannonpoint]"),
            PicIcon::Space => units_of_str("[icon:space]"),
            PicIcon::RedStar => units_of_str("[icon:redstar]"),
            PicIcon::HandClosed => units_of_str("[icon:handclosed]"),
            PicIcon::HandPointer => units_of_str("[icon:handpointer]"),
            PicIcon::HandOpen => units_of_str("[icon:handopen]"),
            PicIcon::RainbowStarBit => units_of_str("[icon:rainbowstarbit]"),
            PicIcon::Peach => units_of_str("[icon:peach]"),
            PicIcon::Mail => units_of_str("[icon:mail]"),
            PicIcon::QuestionMark => units_of_str("[icon:questionmark]"),
            PicIcon::MarioOrLuigi => units_of_str("[icon:marioorluigi]"),
            PicIcon::OneUp => units_of_str("[icon:oneup]"),
            PicIcon::LifeShroom => units_of_str("[icon:lifeshroom]"),
            PicIcon::HungryLuma => units_of_str("[icon:hungryluma]"),
            PicIcon::Polari => units_of_str("[icon:polari]"),
            PicIcon::Comet => units_of_str("[icon:comet]"),
            PicIcon::GreenQuestionMark => units_of_str("[icon:greenquestionmark]"),
        }
    }
}

/// Appends what an icon code renders as: its tag if known, else its
/// decimal code.
pub fn push_icon_text(out: &mut Vec<u16>, num: u16)
    ensures
        final(out)@ == old(out)@ + spec_icon_text(num),
{
    match PicIcon::new(num) {
        Some(p) => {
            let mut t = p.as_utf16();
            out.append(&mut t);
            proof {
                assert(final(out)@ =~= old(out)@ + spec_icon_text(num));
            }
        },
        None => {
            push_dec_units(out, num as u64);
        },
    }
}

/// The text colors a control record can select.
#[derive(Debug, Clone, Copy, PartialEq, Eq, Structural)]
pub enum Color {
    Black,
    Red,
    Green,
    Blue,
    Yellow,
    Purple,
    LightRed,
    LightGreen,
    LightBlue,
    LightYellow,
    BrightPink,
    Gray,
}

/// The color a code selects: codes 0 through 11.
pub open spec fn spec_color(num: u8) -> Option<Color> {
    if num == 0 {
        Some(Color::Black)
    } else if num == 1 {
        Some(Color::Red)
    } else if num == 2 {
        Some(Color::Green)
    } else if num == 3 {
        Some(Color::Blue)
    } else if num == 4 {
        Some(Color::Yellow)
    } else if num == 5 {
        Some(Color::Purple)
    } else if num == 6 {
        Some(Color::LightRed)
    } else if num == 7 {
        Some(Color::LightGreen)
    } else if num == 8 {
        Some(Color::LightBlue)
    } else if num == 9 {
        Some(Color::LightYellow)
    } else if num == 10 {
        Some(Color::BrightPink)
    } else if num == 11 {
        Some(Color::Gray)
    } else {
        None
    }
}

/// The lower-cased bracket tag a color renders as.
pub open spec fn color_units(c: Color) -> Seq<u16> {
    match c {
        Color::Black => str_units("[color:black]"),
        Color::Red => str_units("[color:red]"),
        Color::Green => str_units("[color:green]"),
        Color::Blue => str_units("[color:blue]"),
        Color::Yellow => str_units("[color:yellow]"),
        Color::Purple => str_units("[color:purple]"),
        Color::LightRed => str_units("[color:lightred]"),
        Color::LightGreen => str_units("[color:lightgreen]"),
        Color::LightBlue => str_units("[color:lightblue]"),
        Color::LightYellow => str_units("[color:lightyellow]"),
        Color::BrightPink => str_units("[color:brightpink]"),
        Color::Gray => str_units("[color:gray]"),
    }
}

/// What a color code renders as: the color tag when the code is known,
/// else the decimal code itself.
pub open spec fn spec_color_text(num: u8) -> Seq<u16> {
    match spec_color(num) {
        Some(c) => color_units(c),
        None => dec_units(num as nat),
    }
}

impl Color {
    /// The color a code selects, if the code is known.
    pub fn new(num: u8) -> (r: Option<Color>)
        ensures
            r == spec_color(num),
    {
        match num {
            0 => Some(Color::Black),
            1 => Some(Color::Red),
            2 => Some(Color::Green),
            3 => Some(Color::Blue),
            4 => Some(Color::Yellow),
            5 => Some(Color::Purple),
            6 => Some(Color::LightRed),
            7 => Some(Color::LightGreen),
            8 => Some(Color::LightBlue),
            9 => Some(Color::LightYellow),
            10 => Some(Color::BrightPink),
            11 => Some(Color::Gray),
            _ => None,
        }
    }

    /// This color's lower-cased bracket tag as UTF-16 code units.
    pub fn as_utf16(self) -> (r: Vec<u16>)
        ensures
            r@ == color_units(self),
    {
        match self {
            Color::Black => units_of_str("[color:black]"),
            Color::Red => units_of_str("[color:red]"),
            Color::Green => units_of_str("[color:green]"),
            Color::Blue => units_of_str("[color:blue]"),
            Color::Yellow => units_of_str("[color:yellow]"),
            Color::Purple => units_of_str("[color:purple]"),
            Color::LightRed => units_of_str("[color:lightred]"),
            Color::LightGreen => units_of_str("[color:lightgreen]"),
            Color::LightBlue => units_of_str("[color:lightblue]"),
            Color::LightYellow => units_of_str("[color:lightyellow]"),
            Color::BrightPink => units_of_str("[color:brightpink]"),
            Color::Gray => units_of_str("[color:gray]"),
        }
    }
}

/// Appends what a color code renders as: its tag if known, else its
/// decimal code.
pub fn push_color_text(out: &mut Vec<u16>, num: u8)
    ensures
        final(out)@ == old(out)@ + spec_color_text(num),
{
    match Color::new(num) {
        Some(c) => {
            let mut t = c.as_utf16();
            out.append(&mut t);
            proof {
                assert(final(out)@ =~= old(out)@ + spec_color_text(num));
            }
        },
        None => {
            push_dec_units(out, num as u64);
        },
    }
}

/// The sound effects a message record can name.
#[derive(Debug, Clone, Copy, PartialEq, Eq, Structural)]
pub enum SoundId {
    NoSound,
    SeSvKinopioTalkHey,
    SeSvKinopioTalkYahoo,
    SeSvKinopioTalkAngry,
    SeSvKinopioTalkSad,
    SeSvKinopioTalkHappy,
    SeSvKinopioTalkSleep,
    SeSvRabbitTalkNormal,
    SeSvRabbitTalkCaught,
    SeSvRabbitTalkThats,
    SeSvRabbitTalkHelp,
    SeSvRabbitTalkThanks,
    SeSvPenguinLTalkNormal,
    SeSvPenguinLTalkPleased,
    SeSvPenguinLTalkNg,
    SeSvPenguinLTalkQuestion,
    SeSvPenguinLTalkDistant,
    SeSvPenguinLTalkNormalL,
    SeSvPenguinLTalkPleasedL,
    SeSvPenguinLTalkNgL,
    SeSvPenguinLTalkQuestionL,
    SeSvPenguinLTalkOh,
    SeSvPenguinSTalkNormal,
    SeSvPenguinSTalkGlad,
    SeSvPenguinSTalkGladHigh,
    SeSvPenguinSTalkAngry,
    SeSvPenguinSTalkSad,
    SeSvPenguinSTalkHappy,
    SeSvPenguinSTalkStrong,
    SeSvPenguinSTalkNormalW,
    SeSvPenguinSTalkGreet,
    SeSvPenguinSTalkWin,
    SeSvPenguinSTalkLose,
    SeSvPenguinSTalkOuch,
    SeSvPenguinAceTalkNormal,
    SeSvPenguinAceTalkGreet,
    SeSvPenguinAceTalkWin,
    SeSvPenguinAceTalkLose,
    SeSvSyatiTalkNormal,
    SeSvSyatiTalkRingMeet,
    SeSvSyatiTalkRingWin,
    SeSvSyatiTalkRingLose,
    SeSvSyatiTalkPhanMeet,
    SeSvSyatiTalkPhanWin,
    SeSvSyatiTalkPhanLose,
    SeSvPenguinSsHappy,
    SeSvPenguinSsGreet,
    SeSvPenguinSsDamage,
    SeSvPenguinSsDisappointed,
    SeSvPenguinSsPleased,
    SeSvPenguinSsAngry,
    SeSvHoneybeeTalkNormal,
    SeSvHoneybeeTalkConfusion,
    SeSvHoneybeeTalkQuestion,
    SeSvHoneybeeTalkSurprise,
    SeSvHoneybeeTalkOrder,
    SeSvHoneybeeTalkLaugh,
    SeSvHoneybeeTalkGlad,
    SeSvTicoTalkNormal,
    SeSvTicoTalkGlad,
    SeSvTicoTalkAngry,
    SeSvTicoTalkSad,
    SeSvTicoTalkHappy,
    SeSvTicoTico,
    SeSvTicoTalkConfusion,
    SeSvTicoTalkThanks,
    SeSvLuigiMario,
    SeSvLuigiFrightened,
    SeSvLuigiSorry,
    SeSvLuigiThanks,
    SeSvLuigiHey,
    SeDmKinopioChief,
    SeSvTereracerTalkNormal,
    SeSvTereracerTalkLaugh,
    SeSvTereracerTalkRegret,
    SeSvCaretakerShort,
    SeSvCaretakerNormal,
    SeSvCaretakerLong,
    SeSvCaretakerRepeat,
    SeSvHoneyqueenTalkSurprise,
    SeSvHoneyqueenTalkThanks,
    SeSvHoneyqueenTalkWorry,
    SeSvHoneyqueenTalkAa,
    SeSvHoneyqueenTalkAn,
    SeSvHoneyqueenTalkUfufu,
    SeSvKinopioTalkWelcome,
    SeSvKinopioTalkBeautiful,
    SeSvKinopioTalkSurprise,
    SeSvKinopioPuha,
    SeSvKinopioTalkHelp,
    SeSvKinopioTalkTremble,
    SeSvKinopioTalkStrong,
    SeSvKinopioTalkLookOut,
    SeSvKinopioTalkWow,
    SeSvPeachTalkHelp,
    SeSvRosettaTalkNormal,
    SeSvRosettaTalkSurprise,
    SeSvRosettaTalkSmile,
    SeSvRosettaTalkWaiting,
    SeSvRosettaTalkWorried,
    SeSvTicofatTalkNormal,
    SeSvTicofatTalkKita,
    SeSvTicofatMeta,
    SeSvKinopiochiefTalkHey,
    SeSvKinopiochiefTalkLaugh,
    SeSvKinopiochiefTalkYahoo,
    SeSvTicofatTalkGiveMe,
    SeSvTicofatTalkWaku,
    SeSvButlerTalkSurprise,
    SeSvButlerTalkAgree,
    SeSvButlerTalkWorried,
    SeSvButlerTalkNormal,
    SeSvPenguinOldGreet,
    SeSvPenguinOldGrad,
    SeSvPenguinOldSad,
    SeSvPenguinOldNormal,
    SeSvLuigiTalkTire,
    SeSvLuigiTalkYah,
    SeSvLuigiTalkHelp,
    SeSvLuigiTalkOhYeah,
    SeSvButlerTalkQuestion,
    SeSvRosettaTalkLetsStart,
    SeSvRosettaTalkSomuchToday,
    SeSvPenguinOldScared,
    SeSvTicocometTalkPururin,
    SeSvTicocometTalkDon,
    SeSvKinopioTalkWater,
    SeSvKinopioTalkHeySnor,
    SeSvKinopioTalkSadSnor,
    SeSvTicoshopTalkPikarin,
    SeSvTicoshopTalkKita,
    SeBvKoopajrTlkProvoke,
    SeBvKoopaTlkLaugh,
    SeBvKoopaTlkNormal,
    SeBvKoopaTlkRegret,
    SeBvKoopaTlkCalm,
    SeBvKoopaTlkExcited,
    SeSvTicofatTalkYeah,
    SeSvRosettaTalkThatsAll,
    SeSvCareTakerTrample,
    SeSvKinopioNoMail,
    SeSvKinopioLookMail,
    SeSvKinopioTalkShout,
    SeSvKinopiochiefTalkEvasive,
    SeSvRosettaTalkSo,
    SeSvRosettaTalkLook,
    SeSmSignboardHey,
    SeSvRosettaTalkPlease,
    SeSvRosettaTalkFu,
    SeSvRosettaTalkTrouble,
    SeSvRosettaTalkSigh,
    SeSvRosettaTalkQuestion,
    SeSvRosettaTalkSmileEpB,
    SeSvHoneybeeTalkSleep,
    SeSvKinopioTalkTired,
    SeSvCaretakerAngryFast,
}

/// What a sound code renders as: its symbolic name over the three known
/// sub-ranges, else the decimal code itself.
pub open spec fn spec_sound_string(num: u8) -> Seq<char> {
    if num == 0 {
        "None"@
    } else if num == 1 {
        "SeSvKinopioTalkHey"@
    } else if num == 2 {
        "SeSvKinopioTalkYahoo"@
    } else if num == 3 {
        "SeSvKinopioTalkAngry"@
    } else if num == 4 {
        "SeSvKinopioTalkSad"@
    } else if num == 5 {
        "SeSvKinopioTalkHappy"@
    } else if num == 6 {
        "SeSvKinopioTalkSleep"@
    } else if num == 7 {
        "SeSvRabbitTalkNormal"@
    } else if num == 8 {
        "SeSvRabbitTalkCaught"@
    } else if num == 9 {
        "SeSvRabbitTalkThats"@
    } else if num == 10 {
        "SeSvRabbitTalkHelp"@
    } else if num == 11 {
        "SeSvRabbitTalkThanks"@
    } else if num == 12 {
        "SeSvPenguinLTalkNormal"@
    } else if num == 13 {
        "SeSvPenguinLTalkPleased"@
    } else if num == 14 {
        "SeSvPenguinLTalkNg"@
    } else if num == 15 {
        "SeSvPenguinLTalkQuestion"@
    } else if num == 16 {
        "SeSvPenguinLTalkDistant"@
    } else if num == 17 {
        "SeSvPenguinLTalkNormalL"@
    } else if num == 18 {
        "SeSvPenguinLTalkPleasedL"@
    } else if num == 19 {
        "SeSvPenguinLTalkNgL"@
    } else if num == 20 {
        "SeSvPenguinLTalkQuestionL"@
    } else if num == 21 {
        "SeSvPenguinLTalkOh"@
    } else if num == 22 {
        "SeSvPenguinSTalkNormal"@
    } else if num == 23 {
        "SeSvPenguinSTalkGlad"@
    } else if num == 24 {
        "SeSvPenguinSTalkGladHigh"@
    } else if num == 25 {
        "SeSvPenguinSTalkAngry"@
    } else if num == 26 {
        "SeSvPenguinSTalkSad"@
    } else if num == 27 {
        "SeSvPenguinSTalkHappy"@
    } else if num == 28 {
        "SeSvPenguinSTalkStrong"@
    } else if num == 29 {
        "SeSvPenguinSTalkNormalW"@
    } else if num == 30 {
        "SeSvPenguinSTalkGreet"@
    } else if num == 31 {
        "SeSvPenguinSTalkWin"@
    } else if num == 32 {
        "SeSvPenguinSTalkLose"@
    } else if num == 33 {
        "SeSvPenguinSTalkOuch"@
    } else if num == 34 {
        "SeSvPenguinAceTalkNormal"@
    } else if num == 35 {
        "SeSvPenguinAceTalkGreet"@
    } else if num == 36 {
        "SeSvPenguinAceTalkWin"@
    } else if num == 37 {
        "SeSvPenguinAceTalkLose"@
    } else if num == 38 {
        "SeSvSyatiTalkNormal"@
    } else if num == 39 {
        "SeSvSyatiTalkRingMeet"@
    } else if num == 40 {
        "SeSvSyatiTalkRingWin"@
    } else if num == 41 {
        "SeSvSyatiTalkRingLose"@
    } else if num == 42 {
        "SeSvSyatiTalkPhanMeet"@
    } else if num == 43 {
        "SeSvSyatiTalkPhanWin"@
    } else if num == 44 {
        "SeSvSyatiTalkPhanLose"@
    } else if num == 45 {
        "SeSvPenguinSsHappy"@
    } else if num == 46 {
        "SeSvPenguinSsGreet"@
    } else if num == 47 {
        "SeSvPenguinSsDamage"@
    } else if num == 48 {
        "SeSvPenguinSsDisappointed"@
    } else if num == 49 {
        "SeSvPenguinSsPleased"@
    } else if num == 50 {
        "SeSvPenguinSsAngry"@
    } else if num == 51 {
        "SeSvHoneybeeTalkNormal"@
    } else if num == 52 {
        "SeSvHoneybeeTalkConfusion"@
    } else if num == 53 {
        "SeSvHoneybeeTalkQuestion"@
    } else if num == 54 {
        "SeSvHoneybeeTalkSurprise"@
    } else if num == 55 {
        "SeSvHoneybeeTalkOrder"@
    } else if num == 56 {
        "SeSvHoneybeeTalkLaugh"@
    } else if num == 57 {
        "SeSvHoneybeeTalkGlad"@
    } else if num == 58 {
        "SeSvTicoTalkNormal"@
    } else if num == 59 {
        "SeSvTicoTalkGlad"@
    } else if num == 60 {
        "SeSvTicoTalkAngry"@
    } else if num == 61 {
        "SeSvTicoTalkSad"@
    } else if num == 62 {
        "SeSvTicoTalkHappy"@
    } else if num == 64 {
        "SeSvTicoTico"@
    } else if num == 65 {
        "SeSvTicoTalkConfusion"@
    } else if num == 66 {
        "SeSvTicoTalkThanks"@
    } else if num == 67 {
        "SeSvLuigiMario"@
    } else if num == 68 {
        "SeSvLuigiFrightened"@
    } else if num == 69 {
        "SeSvLuigiSorry"@
    } else if num == 70 {
        "SeSvLuigiThanks"@
    } else if num == 71 {
        "SeSvLuigiHey"@
    } else if num == 72 {
        "SeDmKinopioChief"@
    } else if num == 73 {
        "SeSvTereracerTalkNormal"@
    } else if num == 74 {
        "SeSvTereracerTalkLaugh"@
    } else if num == 75 {
        "SeSvTereracerTalkRegret"@
    } else if num == 76 {
        "SeSvCaretakerShort"@
    } else if num == 77 {
        "SeSvCaretakerNormal"@
    } else if num == 78 {
        "SeSvCaretakerLong"@
    } else if num == 79 {
        "SeSvCaretakerRepeat"@
    } else if num == 85 {
        "SeSvHoneyqueenTalkSurprise"@
    } else if num == 86 {
        "SeSvHoneyqueenTalkThanks"@
    } else if num == 87 {
        "SeSvHoneyqueenTalkWorry"@
    } else if num == 88 {
        "SeSvHoneyqueenTalkAa"@
    } else if num == 89 {
        "SeSvHoneyqueenTalkAn"@
    } else if num == 90 {
        "SeSvHoneyqueenTalkUfufu"@
    } else if num == 91 {
        "SeSvKinopioTalkWelcome"@
    } else if num == 92 {
        "SeSvKinopioTalkBeautiful"@
    } else if num == 93 {
        "SeSvKinopioTalkSurprise"@
    } else if num == 94 {
        "SeSvKinopioPuha"@
    } else if num == 95 {
        "SeSvKinopioTalkHelp"@
    } else if num == 96 {
        "SeSvKinopioTalkTremble"@
    } else if num == 97 {
        "SeSvKinopioTalkStrong"@
    } else if num == 98 {
        "SeSvKinopioTalkLookOut"@
    } else if num == 99 {
        "SeSvKinopioTalkWow"@
    } else if num == 100 {
        "SeSvPeachTalkHelp"@
    } else if num == 101 {
        "SeSvRosettaTalkNormal"@
    } else if num == 102 {
        "SeSvRosettaTalkSurprise"@
    } else if num == 103 {
        "SeSvRosettaTalkSmile"@
    } else if num == 104 {
        "SeSvRosettaTalkWaiting"@
    } else if num == 105 {
        "SeSvRosettaTalkWorried"@
    } else if num == 106 {
        "SeSvTicofatTalkNormal"@
    } else if num == 107 {
        "SeSvTicofatTalkKita"@
    } else if num == 108 {
        "SeSvTicofatMeta"@
    } else if num == 109 {
        "SeSvKinopiochiefTalkHey"@
    } else if num == 110 {
        "SeSvKinopiochiefTalkLaugh"@
    } else if num == 111 {
        "SeSvKinopiochiefTalkYahoo"@
    } else if num == 112 {
        "SeSvTicofatTalkGiveMe"@
    } else if num == 113 {
        "SeSvTicofatTalkWaku"@
    } else if num == 114 {
        "SeSvButlerTalkSurprise"@
    } else if num == 115 {
        "SeSvButlerTalkAgree"@
    } else if num == 116 {
        "SeSvButlerTalkWorried"@
    } else if num == 117 {
        "SeSvButlerTalkNormal"@
    } else if num == 118 {
        "SeSvPenguinOldGreet"@
    } else if num == 119 {
        "SeSvPenguinOldGrad"@
    } else if num == 120 {
        "SeSvPenguinOldSad"@
    } else if num == 121 {
        "SeSvPenguinOldNormal"@
    } else if num == 122 {
        "SeSvLuigiTalkTire"@
    } else if num == 123 {
        "SeSvLuigiTalkYah"@
    } else if num == 124 {
        "SeSvLuigiTalkHelp"@
    } else if num == 125 {
        "SeSvLuigiTalkOhYeah"@
    } else if num == 126 {
        "SeSvButlerTalkQuestion"@
    } else if num == 127 {
        "SeSvRosettaTalkLetsStart"@
    } else if num == 128 {
        "SeSvRosettaTalkSomuchToday"@
    } else if num == 129 {
        "SeSvPenguinOldScared"@
    } else if num == 130 {
        "SeSvTicocometTalkPururin"@
    } else if num == 131 {
        "SeSvTicocometTalkDon"@
    } else if num == 132 {
        "SeSvKinopioTalkWater"@
    } else if num == 133 {
        "SeSvKinopioTalkHeySnor"@
    } else if num == 134 {
        "SeSvKinopioTalkSadSnor"@
    } else if num == 135 {
        "SeSvTicoshopTalkPikarin"@
    } else if num == 136 {
        "SeSvTicoshopTalkKita"@
    } else if num == 137 {
        "SeBvKoopajrTlkProvoke"@
    } else if num == 138 {
        "SeBvKoopaTlkLaugh"@
    } else if num == 139 {
        "SeBvKoopaTlkNormal"@
    } else if num == 140 {
        "SeBvKoopaTlkRegret"@
    } else if num == 141 {
        "SeBvKoopaTlkCalm"@
    } else if num == 142 {
        "SeBvKoopaTlkExcited"@
    } else if num == 143 {
        "SeSvTicofatTalkYeah"@
    } else if num == 144 {
        "SeSvRosettaTalkThatsAll"@
    } else if num == 145 {
        "SeSvCareTakerTrample"@
    } else if num == 146 {
        "SeSvKinopioNoMail"@
    } else if num == 147 {
        "SeSvKinopioLookMail"@
    } else if num == 148 {
        "SeSvKinopioTalkShout"@
    } else if num == 149 {
        "SeSvKinopiochiefTalkEvasive"@
    } else if num == 150 {
        "SeSvRosettaTalkSo"@
    } else if num == 151 {
        "SeSvRosettaTalkLook"@
    } else if num == 152 {
        "SeSmSignboardHey"@
    } else if num == 153 {
        "SeSvRosettaTalkPlease"@
    } else if num == 154 {
        "SeSvRosettaTalkFu"@
    } else if num == 155 {
        "SeSvRosettaTalkTrouble"@
    } else if num == 156 {
        "SeSvRosettaTalkSigh"@
    } else if num == 157 {
        "SeSvRosettaTalkQuestion"@
    } else if num == 158 {
        "SeSvRosettaTalkSmileEpB"@
    } else if num == 159 {
        "SeSvHoneybeeTalkSleep"@
    } else if num == 160 {
        "SeSvKinopioTalkTired"@
    } else if num == 161 {
        "SeSvCaretakerAngryFast"@
    } else {
        dec_chars(num as nat)
    }
}

impl SoundId {
    /// The name a sound code renders as, or its decimal code when the
    /// code is out of every known range.
    #[verifier::rlimit(60)]
    pub fn as_string(num: u8) -> (r: String)
        ensures
            r@ == spec_sound_string(num),
    {
        match num {
            0 => String::from_str("None"),
            1 => String::from_str("SeSvKinopioTalkHey"),
            2 => String::from_str("SeSvKinopioTalkYahoo"),
            3 => String::from_str("SeSvKinopioTalkAngry"),
            4 => String::from_str("SeSvKinopioTalkSad"),
            5 => String::from_str("SeSvKinopioTalkHappy"),
            6 => String::from_str("SeSvKinopioTalkSleep"),
            7 => String::from_str("SeSvRabbitTalkNormal"),
            8 => String::from_str("SeSvRabbitTalkCaught"),
            9 => String::from_str("SeSvRabbitTalkThats"),
            10 => String::from_str("SeSvRabbitTalkHelp"),
            11 => String::from_str("SeSvRabbitTalkThanks"),
            12 => String::from_str("SeSvPenguinLTalkNormal"),
            13 => String::from_str("SeSvPenguinLTalkPleased"),
            14 => String::from_str("SeSvPenguinLTalkNg"),
            15 => String::from_str("SeSvPenguinLTalkQuestion"),
            16 => String::from_str("SeSvPenguinLTalkDistant"),
            17 => String::from_str("SeSvPenguinLTalkNormalL"),
            18 => String::from_str("SeSvPenguinLTalkPleasedL"),
            19 => String::from_str("SeSvPenguinLTalkNgL"),
            20 => String::from_str("SeSvPenguinLTalkQuestionL"),
            21 => String::from_str("SeSvPenguinLTalkOh"),
            22 => String::from_str("SeSvPenguinSTalkNormal"),
            23 => String::from_str("SeSvPenguinSTalkGlad"),
            24 => String::from_str("SeSvPenguinSTalkGladHigh"),
            25 => String::from_str("SeSvPenguinSTalkAngry"),
            26 => String::from_str("SeSvPenguinSTalkSad"),
            27 => String::from_str("SeSvPenguinSTalkHappy"),
            28 => String::from_str("SeSvPenguinSTalkStrong"),
            29 => String::from_str("SeSvPenguinSTalkNormalW"),
            30 => String::from_str("SeSvPenguinSTalkGreet"),
            31 => String::from_str("SeSvPenguinSTalkWin"),
            32 => String::from_str("SeSvPenguinSTalkLose"),
            33 => String::from_str("SeSvPenguinSTalkOuch"),
            34 => String::from_str("SeSvPenguinAceTalkNormal"),
            35 => String::from_str("SeSvPenguinAceTalkGreet"),
            36 => String::from_str("SeSvPenguinAceTalkWin"),
            37 => String::from_str("SeSvPenguinAceTalkLose"),
            38 => String::from_str("SeSvSyatiTalkNormal"),
            39 => String::from_str("SeSvSyatiTalkRingMeet"),
            40 => String::from_str("SeSvSyatiTalkRingWin"),
            41 => String::from_str("SeSvSyatiTalkRingLose"),
            42 => String::from_str("SeSvSyatiTalkPhanMeet"),
            43 => String::from_str("SeSvSyatiTalkPhanWin"),
            44 => String::from_str("SeSvSyatiTalkPhanLose"),
            45 => String::from_str("SeSvPenguinSsHappy"),
            46 => String::from_str("SeSvPenguinSsGreet"),
            47 => String::from_str("SeSvPenguinSsDamage"),
            48 => String::from_str("SeSvPenguinSsDisappointed"),
            49 => String::from_str("SeSvPenguinSsPleased"),
            50 => String::from_str("SeSvPenguinSsAngry"),
            51 => String::from_str("SeSvHoneybeeTalkNormal"),
            52 => String::from_str("SeSvHoneybeeTalkConfusion"),
            53 => String::from_str("SeSvHoneybeeTalkQuestion"),
            54 => String::from_str("SeSvHoneybeeTalkSurprise"),
            55 => String::from_str("SeSvHoneybeeTalkOrder"),
            56 => String::from_str("SeSvHoneybeeTalkLaugh"),
            57 => String::from_str("SeSvHoneybeeTalkGlad"),
            58 => String::from_str("SeSvTicoTalkNormal"),
            59 => String::from_str("SeSvTicoTalkGlad"),
            60 => String::from_str("SeSvTicoTalkAngry"),
            61 => String::from_str("SeSvTicoTalkSad"),
            62 => String::from_str("SeSvTicoTalkHappy"),
            64 => String::from_str("SeSvTicoTico"),
            65 => String::from_str("SeSvTicoTalkConfusion"),
            66 => String::from_str("SeSvTicoTalkThanks"),
            67 => String::from_str("SeSvLuigiMario"),
            68 => String::from_str("SeSvLuigiFrightened"),
            69 => String::from_str("SeSvLuigiSorry"),
            70 => String::from_str("SeSvLuigiThanks"),
            71 => String::from_str("SeSvLuigiHey"),
            72 => String::from_str("SeDmKinopioChief"),
            73 => String::from_str("SeSvTereracerTalkNormal"),
            74 => String::from_str("SeSvTereracerTalkLaugh"),
            75 => String::from_str("SeSvTereracerTalkRegret"),
            76 => String::from_str("SeSvCaretakerShort"),
            77 => String::from_str("SeSvCaretakerNormal"),
            78 => String::from_str("SeSvCaretakerLong"),
            79 => String::from_str("SeSvCaretakerRepeat"),
            85 => String::from_str("SeSvHoneyqueenTalkSurprise"),
            86 => String::from_str("SeSvHoneyqueenTalkThanks"),
            87 => String::from_str("SeSvHoneyqueenTalkWorry"),
            88 => String::from_str("SeSvHoneyqueenTalkAa"),
            89 => String::from_str("SeSvHoneyqueenTalkAn"),
            90 => String::from_str("SeSvHoneyqueenTalkUfufu"),
            91 => String::from_str("SeSvKinopioTalkWelcome"),
            92 => String::from_str("SeSvKinopioTalkBeautiful"),
            93 => String::from_str("SeSvKinopioTalkSurprise"),
            94 => String::from_str("SeSvKinopioPuha"),
            95 => String::from_str("SeSvKinopioTalkHelp"),
            96 => String::from_str("SeSvKinopioTalkTremble"),
            97 => String::from_str("SeSvKinopioTalkStrong"),
            98 => String::from_str("SeSvKinopioTalkLookOut"),
            99 => String::from_str("SeSvKinopioTalkWow"),
            100 => String::from_str("SeSvPeachTalkHelp"),
            101 => String::from_str("SeSvRosettaTalkNormal"),
            102 => String::from_str("SeSvRosettaTalkSurprise"),
            103 => String::from_str("SeSvRosettaTalkSmile"),
            104 => String::from_str("SeSvRosettaTalkWaiting"),
            105 => String::from_str("SeSvRosettaTalkWorried"),
            106 => String::from_str("SeSvTicofatTalkNormal"),
            107 => String::from_str("SeSvTicofatTalkKita"),
            108 => String::from_str("SeSvTicofatMeta"),
            109 => String::from_str("SeSvKinopiochiefTalkHey"),
            110 => String::from_str("SeSvKinopiochiefTalkLaugh"),
            111 => String::from_str("SeSvKinopiochiefTalkYahoo"),
            112 => String::from_str("SeSvTicofatTalkGiveMe"),
            113 => String::from_str("SeSvTicofatTalkWaku"),
            114 => String::from_str("SeSvButlerTalkSurprise"),
            115 => String::from_str("SeSvButlerTalkAgree"),
            116 => String::from_str("SeSvButlerTalkWorried"),
            117 => String::from_str("SeSvButlerTalkNormal"),
            118 => String::from_str("SeSvPenguinOldGreet"),
            119 => String::from_str("SeSvPenguinOldGrad"),
            120 => String::from_str("SeSvPenguinOldSad"),
            121 => String::from_str("SeSvPenguinOldNormal"),
            122 => String::from_str("SeSvLuigiTalkTire"),
            123 => String::from_str("SeSvLuigiTalkYah"),
            124 => String::from_str("SeSvLuigiTalkHelp"),
            125 => String::from_str("SeSvLuigiTalkOhYeah"),
            126 => String::from_str("SeSvButlerTalkQuestion"),
            127 => String::from_str("SeSvRosettaTalkLetsStart"),
            128 => String::from_str("SeSvRosettaTalkSomuchToday"),
            129 => String::from_str("SeSvPenguinOldScared"),
            130 => String::from_str("SeSvTicocometTalkPururin"),
            131 => String::from_str("SeSvTicocometTalkDon"),
            132 => String::from_str("SeSvKinopioTalkWater"),
            133 => String::from_str("SeSvKinopioTalkHeySnor"),
            134 => String::from_str("SeSvKinopioTalkSadSnor"),
            135 => String::from_str("SeSvTicoshopTalkPikarin"),
            136 => String::from_str("SeSvTicoshopTalkKita"),
            137 => String::from_str("SeBvKoopajrTlkProvoke"),
            138 => String::from_str("SeBvKoopaTlkLaugh"),
            139 => String::from_str("SeBvKoopaTlkNormal"),
            140 => String::from_str("SeBvKoopaTlkRegret"),
            141 => String::from_str("SeBvKoopaTlkCalm"),
            142 => String::from_str("SeBvKoopaTlkExcited"),
            143 => String::from_str("SeSvTicofatTalkYeah"),
            144 => String::from_str("SeSvRosettaTalkThatsAll"),
            145 => String::from_str("SeSvCareTakerTrample"),
            146 => String::from_str("SeSvKinopioNoMail"),
            147 => String::from_str("SeSvKinopioLookMail"),
            148 => String::from_str("SeSvKinopioTalkShout"),
            149 => String::from_str("SeSvKinopiochiefTalkEvasive"),
            150 => String::from_str("SeSvRosettaTalkSo"),
            151 => String::from_str("SeSvRosettaTalkLook"),
            152 => String::from_str("SeSmSignboardHey"),
            153 => String::from_str("SeSvRosettaTalkPlease"),
            154 => String::from_str("SeSvRosettaTalkFu"),
            155 => String::from_str("SeSvRosettaTalkTrouble"),
            156 => String::from_str("SeSvRosettaTalkSigh"),
            157 => String::from_str("SeSvRosettaTalkQuestion"),
            158 => String::from_str("SeSvRosettaTalkSmileEpB"),
            159 => String::from_str("SeSvHoneybeeTalkSleep"),
            160 => String::from_str("SeSvKinopioTalkTired"),
            161 => String::from_str("SeSvCaretakerAngryFast"),
            _ => {
                let mut s = String::new();
                crate::textutil::push_dec_chars(&mut s, num as u64);
                s
            },
        }
    }
}

} // verus!
