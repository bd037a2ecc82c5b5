//! The flow-graph decoder: condition, event and choice symbol tables, flow
//! roots, and the recursive, cycle-safe renderer that traverses the graph
//! against a shared visited set.
use crate::bmg::EntryCondition;
use crate::bmg::EntryText;
use crate::bmg::EntryEvent;
use crate::bmg::FLW1;
use crate::bmg::FLW1Entry;
use crate::bmg::FLW1View;
use crate::textutil::dec_chars;
use crate::textutil::push_dec_chars;
use vstd::prelude::*;
use vstd::string::StringExecFns;

verus! {

/// The multiple-choice situations a condition of type 0 can name.
#[derive(Debug, Clone, Copy, PartialEq, Eq, Structural)]
pub enum MultipleChoice {
    PenguinRace,
    SwimmingSchool,
    PenguinRaceAlt,
    BombTimeAttackLv1,
    PhantomTeresaRacer,
    BombTimeAttackLv2,
    TrialSurfingCoach,
    TrialSurfingHowTo,
    DeathPromenadeTeresaRacer,
    RosettaFinalBattle,
    CometTico,
    TransformTico,
    ChallengeSurfingCoach,
    TicoShopExchange,
    TicoShopWhich,
    KinopioPurple,
    CometTicoTell,
    TrialTamakoroHowTo,
    KnockOnTheDoor,
    LedPattern,
}

/// The condition kinds a condition node can carry.
#[derive(Debug, Clone, Copy, PartialEq, Eq, Structural)]
pub enum ConditionType {
    MultipleChoice,
    Coded,
    PlayerNearNpc,
    SwA,
    SwB,
    PlayerStateNoPowerUp,
    PlayerStateBee,
    PlayerStateBoo,
    PowerStarSpawned,
    AlreadyTalkedScene,
    PlayerLuigi,
    GetBranchAstroGalaxyResult,
    CutsceneActive,
    AlreadyTalkedSaved,
    IsMsgLedPattern,
}

/// The event kinds an event node can carry.
#[derive(Debug, Clone, Copy, PartialEq, Eq, Structural)]
pub enum EventType {
    NpcEvent,
    NpcEventAlt,
    NextText,
    Unk,
    Emotion,
    SwA,
    SwB,
    Metamorphosis,
}

/// What a multiple-choice value renders as: its name for values 0 through 19, else its decimal value.
pub open spec fn spec_choice_chars(num: u16) -> Seq<char> {
    if num == 0 {
        "PenguinRace"@
    } else if num == 1 {
        "SwimmingSchool"@
    } else if num == 2 {
        "PenguinRaceAlt"@
    } else if num == 3 {
        "BombTimeAttackLv1"@
    } else if num == 4 {
        "PhantomTeresaRacer"@
    } else if num == 5 {
        "BombTimeAttackLv2"@
    } else if num == 6 {
        "TrialSurfingCoach"@
    } else if num == 7 {
        "TrialSurfingHowTo"@
    } else if num == 8 {
        "DeathPromenadeTeresaRacer"@
    } else if num == 9 {
        "RosettaFinalBattle"@
    } else if num == 10 {
        "CometTico"@
    } else if num == 11 {
        "TransformTico"@
    } else if num == 12 {
        "ChallengeSurfingCoach"@
    } else if num == 13 {
        "TicoShopExchange"@
    } else if num == 14 {
        "TicoShopWhich"@
    } else if num == 15 {
        "KinopioPurple"@
    } else if num == 16 {
        "CometTicoTell"@
    } else if num == 17 {
        "TrialTamakoroHowTo"@
    } else if num == 18 {
        "KnockOnTheDoor"@
    } else if num == 19 {
        "LedPattern"@
    } else {
        dec_chars(num as nat)
    }
}

/// What a condition-type code renders as: its name for codes 0 through 14, else its decimal code.
pub open spec fn spec_con_type_chars(num: u16) -> Seq<char> {
    if num == 0 {
        "MultipleChoice"@
    } else if num == 1 {
        "Coded"@
    } else if num == 2 {
        "PlayerNearNpc"@
    } else if num == 3 {
        "SwA"@
    } else if num == 4 {
        "SwB"@
    } else if num == 5 {
        "PlayerStateNoPowerUp"@
    } else if num == 6 {
        "PlayerStateBee"@
    } else if num == 7 {
        "PlayerStateBoo"@
    } else if num == 8 {
        "PowerStarSpawned"@
    } else if num == 9 {
        "AlreadyTalkedScene"@
    } else if num == 10 {
        "PlayerLuigi"@
    } else if num == 11 {
        "GetBranchAstroGalaxyResult"@
    } else if num == 12 {
        "CutsceneActive"@
    } else if num == 13 {
        "AlreadyTalkedSaved"@
    } else if num == 14 {
        "IsMsgLedPattern"@
    } else {
        dec_chars(num as nat)
    }
}

/// What an event-type code renders as: its name for codes 0 through 7, else its decimal code.
pub open spec fn spec_event_type_chars(num: u8) -> Seq<char> {
    if num == 0 {
        "NpcEvent"@
    } else if num == 1 {
        "NpcEventAlt"@
    } else if num == 2 {
        "NextText"@
    } else if num == 3 {
        "Unk"@
    } else if num == 4 {
        "Emotion"@
    } else if num == 5 {
        "SwA"@
    } else if num == 6 {
        "SwB"@
    } else if num == 7 {
        "Metamorphosis"@
    } else {
        dec_chars(num as nat)
    }
}

impl EntryCondition {
    /// The name this record's arg renders as, or its decimal value.
    pub fn get_choice(&self) -> (r: String)
        ensures
            r@ == spec_choice_chars(self.arg),
    {
        match self.arg {
            0 => String::from_str("PenguinRace"),
            1 => String::from_str("SwimmingSchool"),
            2 => String::from_str("PenguinRaceAlt"),
            3 => String::from_str("BombTimeAttackLv1"),
            4 => String::from_str("PhantomTeresaRacer"),
            5 => String::from_str("BombTimeAttackLv2"),
            6 => String::from_str("TrialSurfingCoach"),
            7 => String::from_str("TrialSurfingHowTo"),
            8 => String::from_str("DeathPromenadeTeresaRacer"),
            9 => String::from_str("RosettaFinalBattle"),
            10 => String::from_str("CometTico"),
            11 => String::from_str("TransformTico"),
            12 => String::from_str("ChallengeSurfingCoach"),
            13 => String::from_str("TicoShopExchange"),
            14 => String::from_str("TicoShopWhich"),
            15 => String::from_str("KinopioPurple"),
            16 => String::from_str("CometTicoTell"),
            17 => String::from_str("TrialTamakoroHowTo"),
            18 => String::from_str("KnockOnTheDoor"),
            19 => String::from_str("LedPattern"),
            _ => {
                let mut s = String::new();
                push_dec_chars(&mut s, self.arg as u64);
                s
            },
        }
    }
}

impl EntryCondition {
    /// The name this record's conditiontype renders as, or its decimal code.
    pub fn get_con_type(&self) -> (r: String)
        ensures
            r@ == spec_con_type_chars(self.conditiontype),
    {
        match self.conditiontype {
            0 => String::from_str("MultipleChoice"),
            1 => String::from_str("Coded"),
            2 => String::from_str("PlayerNearNpc"),
            3 => String::from_str("SwA"),
            4 => String::from_str("SwB"),
            5 => String::from_str("PlayerStateNoPowerUp"),
            6 => String::from_str("PlayerStateBee"),
            7 => String::from_str("PlayerStateBoo"),
            8 => String::from_str("PowerStarSpawned"),
            9 => String::from_str("AlreadyTalkedScene"),
            10 => String::from_str("PlayerLuigi"),
            11 => String::from_str("GetBranchAstroGalaxyResult"),
            12 => String::from_str("CutsceneActive"),
            13 => String::from_str("AlreadyTalkedSaved"),
            14 => String::from_str("IsMsgLedPattern"),
            _ => {
                let mut s = String::new();
                push_dec_chars(&mut s, self.conditiontype as u64);
                s
            },
        }
    }
}

impl EntryEvent {
    /// The name this record's event type renders as, or its decimal code.
    pub fn get_event_type(&self) -> (r: String)
        ensures
            r@ == spec_event_type_chars(self.event_type),
    {
        match self.event_type {
            0 => String::from_str("NpcEvent"),
            1 => String::from_str("NpcEventAlt"),
            2 => String::from_str("NextText"),
            3 => String::from_str("Unk"),
            4 => String::from_str("Emotion"),
            5 => String::from_str("SwA"),
            6 => String::from_str("SwB"),
            7 => String::from_str("Metamorphosis"),
            _ => {
                let mut s = String::new();
                push_dec_chars(&mut s, self.event_type as u64);
                s
            },
        }
    }
}

/// The graph-node index stored in the branch table at `idx`, or the
/// sentinel when `idx` lies outside the table (a node whose branch index is
/// not covered targets nothing).
pub open spec fn spec_branch_target(bt: Seq<u16>, idx: int) -> u16 {
    if 0 <= idx < bt.len() {
        bt[idx]
    } else {
        0xFFFF
    }
}

/// Whether node `c` names node `i` as a successor target: through a text
/// node's successor field, either slot of a condition node's branch pair,
/// or an event node's branch slot.
pub open spec fn spec_targets(v: FLW1View, c: int, i: u16) -> bool {
    match v.entries[c] {
        FLW1Entry::Text(t) => t.nexttextid == i,
        FLW1Entry::Condition(con) => spec_branch_target(v.branch_nodes, con.branchnodeid as int)
            == i || spec_branch_target(v.branch_nodes, con.branchnodeid as int + 1) == i,
        FLW1Entry::Event(ev) => spec_branch_target(v.branch_nodes, ev.branchnodeid as int) == i,
    }
}

/// Whether node `i` is a flow root: no other node names it as a successor.
pub open spec fn spec_is_root(v: FLW1View, i: u16) -> bool {
    forall|c: int| 0 <= c < v.nodenum as int && c != i as int ==> !spec_targets(v, c, i)
}

/// Whether message `id` has a flow of its own: some text node carries it as
/// its message index and is a flow root.
pub open spec fn spec_has_flow(v: FLW1View, id: u16) -> bool {
    exists|i: int|
        0 <= i < v.nodenum as int && (#[trigger] v.entries[i] matches FLW1Entry::Text(t)
            && t.textid == id) && spec_is_root(v, i as u16)
}

/// How many nodes the visited set still leaves unvisited.
pub open spec fn count_unvisited(s: Seq<bool>) -> nat
    decreases s.len(),
{
    if s.len() == 0 {
        0
    } else {
        (if s[0] {
            0nat
        } else {
            1nat
        }) + count_unvisited(s.drop_first())
    }
}

/// Marking an unvisited node visited strictly shrinks the unvisited count.
pub proof fn lemma_count_update_true(s: Seq<bool>, i: int)
    requires
        0 <= i < s.len(),
        !s[i],
    ensures
        count_unvisited(s.update(i, true)) < count_unvisited(s),
    decreases s.len(),
{
    if i == 0 {
        assert(s.update(0, true).drop_first() =~= s.drop_first());
        lemma_count_monotone(s.drop_first());
    } else {
        assert(s.update(i, true).drop_first() =~= s.drop_first().update(i - 1, true));
        lemma_count_update_true(s.drop_first(), i - 1);
    }
}

/// The unvisited count never goes negative of itself; stated as a bound to
/// anchor the induction above.
pub proof fn lemma_count_monotone(s: Seq<bool>)
    ensures
        count_unvisited(s) <= s.len(),
    decreases s.len(),
{
    if s.len() > 0 {
        lemma_count_monotone(s.drop_first());
    }
}

/// The pointwise union of two visited sets, over the second one's length.
pub open spec fn seq_or(a: Seq<bool>, b: Seq<bool>) -> Seq<bool> {
    Seq::new(b.len(), |i: int| b[i] || (0 <= i < a.len() && a[i]))
}

/// A union with another set leaves no more unvisited than the set itself.
pub proof fn lemma_count_or_le(a: Seq<bool>, b: Seq<bool>)
    ensures
        count_unvisited(seq_or(a, b)) <= count_unvisited(b),
    decreases b.len(),
{
    if b.len() > 0 {
        if a.len() == 0 {
            assert(seq_or(a, b) =~= b);
        } else {
            assert(seq_or(a, b).drop_first() =~= seq_or(a.drop_first(), b.drop_first()));
            lemma_count_or_le(a.drop_first(), b.drop_first());
        }
    }
}

/// A union with a set it already covers is that set itself.
pub proof fn lemma_or_absorb(a: Seq<bool>, b: Seq<bool>)
    requires
        a.len() == b.len(),
        forall|j: int| 0 <= j < b.len() && b[j] ==> a[j],
    ensures
        seq_or(a, b) == a,
{
    assert(seq_or(a, b) =~= a);
}

/// The trace line a text node emits: its header, its message index and its
/// successor target or "none".
pub open spec fn spec_text_line(id: u16, t: EntryText) -> Seq<char> {
    "[node:"@ + dec_chars(id as nat) + "][type:text][messageid:"@ + dec_chars(t.textid as nat)
        + "][next:"@ + (if t.nexttextid == 0xFFFF {
        "none]\n"@
    } else {
        dec_chars(t.nexttextid as nat) + "]\n"@
    })
}

/// The trace line a condition node emits: its header, the condition-type
/// name, the choice name (for the multiple-choice type) or the raw
/// argument, and the two branch targets.
pub open spec fn spec_condition_line(id: u16, con: EntryCondition, tid: u16, fid: u16) -> Seq<
    char,
> {
    "[node:"@ + dec_chars(id as nat) + "][type:condition][type:"@ + spec_con_type_chars(
        con.conditiontype,
    ) + "]"@ + (if con.conditiontype == 0 {
        "[choice:"@ + spec_choice_chars(con.arg) + "]"@
    } else {
        "[arg:"@ + dec_chars(con.arg as nat) + "]"@
    }) + "[trueflow:"@ + (if tid == 0xFFFF {
        "none]"@
    } else {
        dec_chars(tid as nat) + "]"@
    }) + "[falseflow:"@ + (if fid == 0xFFFF {
        "none]"@
    } else {
        dec_chars(fid as nat) + "]"@
    }) + "\n"@
}

/// The trace line an event node emits: its header, the event-type name, the
/// argument and the next target.
pub open spec fn spec_event_line(id: u16, ev: EntryEvent, nid: u16) -> Seq<char> {
    "[node:"@ + dec_chars(id as nat) + "][type:event][type:"@ + spec_event_type_chars(
        ev.event_type,
    ) + "]"@ + "[arg:"@ + dec_chars(ev.arg as nat) + "][next:"@ + (if nid == 0xFFFF {
        "none]\n"@
    } else {
        dec_chars(nid as nat) + "]\n"@
    })
}

/// Appends a text node's trace line.
pub fn push_text_line(result: &mut String, id: u16, t: EntryText)
    ensures
        final(result)@ == old(result)@ + spec_text_line(id, t),
{
    result.append("[node:");
    push_dec_chars(result, id as u64);
    result.append("][type:text][messageid:");
    push_dec_chars(result, t.textid as u64);
    result.append("][next:");
    if t.nexttextid == 0xFFFF {
        result.append("none]\n");
    } else {
        push_dec_chars(result, t.nexttextid as u64);
        result.append("]\n");
    }
    proof {
        assert(result@ =~= old(result)@ + spec_text_line(id, t));
    }
}

/// Appends a condition node's trace line.
#[verifier::rlimit(100)]
#[verifier::spinoff_prover]
pub fn push_condition_line(result: &mut String, id: u16, con: EntryCondition, tid: u16, fid: u16)
    ensures
        final(result)@ == old(result)@ + spec_condition_line(id, con, tid, fid),
{
    result.append("[node:");
    push_dec_chars(result, id as u64);
    result.append("][type:condition][type:");
    let ct = con.get_con_type();
    result.append(ct.as_str());
    result.append("]");
    if con.conditiontype == 0 {
        result.append("[choice:");
        let ch = con.get_choice();
        result.append(ch.as_str());
        result.append("]");
    } else {
        result.append("[arg:");
        push_dec_chars(result, con.arg as u64);
        result.append("]");
    }
    result.append("[trueflow:");
    if tid == 0xFFFF {
        result.append("none]");
    } else {
        push_dec_chars(result, tid as u64);
        result.append("]");
    }
    result.append("[falseflow:");
    if fid == 0xFFFF {
        result.append("none]");
    } else {
        push_dec_chars(result, fid as u64);
        result.append("]");
    }
    result.append("\n");
    proof {
        assert(result@ =~= old(result)@ + spec_condition_line(id, con, tid, fid));
    }
}

/// Appends an event node's trace line.
pub fn push_event_line(result: &mut String, id: u16, ev: EntryEvent, nid: u16)
    ensures
        final(result)@ == old(result)@ + spec_event_line(id, ev, nid),
{
    result.append("[node:");
    push_dec_chars(result, id as u64);
    result.append("][type:event][type:");
    let et = ev.get_event_type();
    result.append(et.as_str());
    result.append("]");
    result.append("[arg:");
    push_dec_chars(result, ev.arg as u64);
    result.append("][next:");
    if nid == 0xFFFF {
        result.append("none]\n");
    } else {
        push_dec_chars(result, nid as u64);
        result.append("]\n");
    }
    proof {
        assert(result@ =~= old(result)@ + spec_event_line(id, ev, nid));
    }
}

/// What rendering node `id` (whose record is passed as `node`) against a
/// visited set yields: the trace text and the visited set afterwards. An
/// already-visited or out-of-range node yields nothing and leaves the set
/// unchanged — the sole cycle and shared-successor guard. Otherwise the
/// node is marked, its header and fields are emitted, and its in-range
/// successors are rendered in turn against the growing set.
pub open spec fn spec_render(v: FLW1View, id: u16, node: FLW1Entry, visited: Seq<bool>) -> (
    Seq<char>,
    Seq<bool>,
)
    decreases count_unvisited(visited),
    via spec_render_decreases
{
    if id as int >= visited.len() || visited[id as int] {
        (Seq::<char>::empty(), visited)
    } else {
        let vis1 = visited.update(id as int, true);
        match node {
            FLW1Entry::Text(t) => {
                let line = spec_text_line(id, t);
                if t.nexttextid != 0xFFFF && (t.nexttextid as int) < v.nodenum as int {
                    let sub = spec_render(v, t.nexttextid, v.entries[t.nexttextid as int], vis1);
                    (line + sub.0, sub.1)
                } else {
                    (line, vis1)
                }
            },
            FLW1Entry::Condition(con) => {
                let tid = spec_branch_target(v.branch_nodes, con.branchnodeid as int);
                let fid = spec_branch_target(v.branch_nodes, con.branchnodeid as int + 1);
                let line = spec_condition_line(id, con, tid, fid);
                let r1 = if (tid as int) < v.nodenum as int {
                    spec_render(v, tid, v.entries[tid as int], vis1)
                } else {
                    (Seq::<char>::empty(), vis1)
                };
                let vis2 = seq_or(r1.1, vis1);
                let r2 = if (fid as int) < v.nodenum as int {
                    spec_render(v, fid, v.entries[fid as int], vis2)
                } else {
                    (Seq::<char>::empty(), vis2)
                };
                (line + r1.0 + r2.0, r2.1)
            },
            FLW1Entry::Event(ev) => {
                let nid = spec_branch_target(v.branch_nodes, ev.branchnodeid as int);
                let line = spec_event_line(id, ev, nid);
                if (nid as int) < v.nodenum as int {
                    let sub = spec_render(v, nid, v.entries[nid as int], vis1);
                    (line + sub.0, sub.1)
                } else {
                    (line, vis1)
                }
            },
        }
    }
}

#[via_fn]
proof fn spec_render_decreases(v: FLW1View, id: u16, node: FLW1Entry, visited: Seq<bool>) {
    if !(id as int >= visited.len() || visited[id as int]) {
        let vis1 = visited.update(id as int, true);
        lemma_count_update_true(visited, id as int);
        assert forall|a: Seq<bool>| count_unvisited(seq_or(a, vis1)) <= count_unvisited(vis1) by {
            lemma_count_or_le(a, vis1);
        }
    }
}

/// Rendering never forgets a visit: the visited set afterwards covers the
/// one before, has the same size, and covers the rendered node itself.
pub proof fn lemma_render_grows(v: FLW1View, id: u16, node: FLW1Entry, visited: Seq<bool>)
    ensures
        spec_render(v, id, node, visited).1.len() == visited.len(),
        forall|j: int|
            0 <= j < visited.len() && visited[j] ==> #[trigger] spec_render(
                v,
                id,
                node,
                visited,
            ).1[j],
        (id as int) < visited.len() ==> spec_render(v, id, node, visited).1[id as int],
    decreases count_unvisited(visited),
{
    if id as int >= visited.len() || visited[id as int] {
    } else {
        let vis1 = visited.update(id as int, true);
        lemma_count_update_true(visited, id as int);
        match node {
            FLW1Entry::Text(t) => {
                if t.nexttextid != 0xFFFF && (t.nexttextid as int) < v.nodenum as int {
                    lemma_render_grows(v, t.nexttextid, v.entries[t.nexttextid as int], vis1);
                }
            },
            FLW1Entry::Condition(con) => {
                let tid = spec_branch_target(v.branch_nodes, con.branchnodeid as int);
                let fid = spec_branch_target(v.branch_nodes, con.branchnodeid as int + 1);
                let r1 = if (tid as int) < v.nodenum as int {
                    lemma_render_grows(v, tid, v.entries[tid as int], vis1);
                    spec_render(v, tid, v.entries[tid as int], vis1)
                } else {
                    (Seq::<char>::empty(), vis1)
                };
                let vis2 = seq_or(r1.1, vis1);
                lemma_count_or_le(r1.1, vis1);
                if (fid as int) < v.nodenum as int {
                    lemma_render_grows(v, fid, v.entries[fid as int], vis2);
                }
            },
            FLW1Entry::Event(ev) => {
                let nid = spec_branch_target(v.branch_nodes, ev.branchnodeid as int);
                if (nid as int) < v.nodenum as int {
                    lemma_render_grows(v, nid, v.entries[nid as int], vis1);
                }
            },
        }
    }
}

/// The first text node at or after `i` whose message index is `id`.
pub open spec fn spec_find_text(v: FLW1View, id: u16, i: int) -> Option<int>
    decreases v.nodenum as int - i,
{
    if i >= v.nodenum as int {
        None
    } else if v.entries[i] matches FLW1Entry::Text(t) && t.textid == id {
        Some(i)
    } else {
        spec_find_text(v, id, i + 1)
    }
}

/// What rendering message `id`'s flow yields: the trace from the first text
/// node carrying that message index, or nothing when no node does.
pub open spec fn spec_findnode(v: FLW1View, id: u16, visited: Seq<bool>) -> (Seq<char>, Seq<bool>) {
    match spec_find_text(v, id, 0) {
        Some(i) => spec_render(v, i as u16, v.entries[i], visited),
        None => (Seq::<char>::empty(), visited),
    }
}

impl FLW1 {
    /// The branch-table entry at `idx`, or the sentinel when the table does
    /// not cover it.
    pub fn branch_target(&self, idx: usize) -> (r: u16)
        ensures
            r == spec_branch_target(self@.branch_nodes, idx as int),
    {
        if idx < self.branch_nodes.len() {
            self.branch_nodes[idx]
        } else {
            0xFFFF
        }
    }

    /// Whether some other node names node `i` as a successor target.
    fn is_targeted(&self, i: u16) -> (r: bool)
        requires
            self@.wf(),
        ensures
            r == !spec_is_root(self@, i),
    {
        let n = self.nodenum;
        let mut c: u16 = 0;
        while c < n
            invariant
                c <= n,
                n == self@.nodenum,
                self@.wf(),
                forall|k: int| 0 <= k < c as int && k != i as int ==> !spec_targets(self@, k, i),
            decreases n - c,
        {
            if c != i {
                let hit = match self.entries[c as usize] {
                    FLW1Entry::Text(t) => t.nexttextid == i,
                    FLW1Entry::Condition(con) => {
                        let b1 = self.branch_target(con.branchnodeid as usize);
                        let b2 = self.branch_target(con.branchnodeid as usize + 1);
                        b1 == i || b2 == i
                    },
                    FLW1Entry::Event(ev) => self.branch_target(ev.branchnodeid as usize) == i,
                };
                if hit {
                    proof {
                        assert(spec_targets(self@, c as int, i));
                    }
                    return true;
                }
            }
            c = c + 1;
        }
        false
    }

    /// Whether message `id` has a flow of its own: true exactly when some
    /// text node carries `id` as its message index and no other node names
    /// that text node's array position as a successor (nodes that are
    /// successors of something else are never independent entry points).
    #[verifier::loop_isolation(false)]
    pub fn has_flow(&self, id: u16) -> (r: bool)
        requires
            self@.wf(),
        ensures
            r == spec_has_flow(self@, id),
    {
        let n = self.nodenum;
        let mut i: u16 = 0;
        while i < n
            invariant
                i <= n,
                forall|k: int|
                    0 <= k < i as int ==> !((#[trigger] self@.entries[k] matches FLW1Entry::Text(t)
                        && t.textid == id) && spec_is_root(self@, k as u16)),
            decreases n - i,
        {
            if let FLW1Entry::Text(t) = self.entries[i as usize] {
                if t.textid == id {
                    if !self.is_targeted(i) {
                        proof {
                            assert(self@.entries[i as int] matches FLW1Entry::Text(t2)
                                && t2.textid == id);
                        }
                        return true;
                    }
                }
            }
            i = i + 1;
        }
        false
    }

    /// Renders the flow reachable from node `id` (whose record is `node`)
    /// into `result`, marking every rendered node in the shared visited set;
    /// an already-visited node yields nothing, which is the sole cycle
    /// guard, so every node is rendered at most once per visited set.
    #[verifier::loop_isolation(false)]
    #[verifier::rlimit(100)]
    pub fn write_flow(&self, id: u16, node: FLW1Entry, result: &mut String, converted: &mut Vec<
        bool,
    >)
        requires
            self@.wf(),
            old(converted)@.len() == self@.nodenum as nat,
            (id as int) < old(converted)@.len(),
        ensures
            final(converted)@.len() == old(converted)@.len(),
            final(result)@ == old(result)@ + spec_render(self@, id, node, old(converted)@).0,
            final(converted)@ == spec_render(self@, id, node, old(converted)@).1,
        decreases count_unvisited(converted@),
{
        if converted[id as usize] {
            return ;
        }
        converted[id as usize] = true;
        let ghost vis1 = old(converted)@.update(id as int, true);
        proof {
            assert(converted@ == vis1);
            lemma_count_update_true(old(converted)@, id as int);
        }
        match node {
            FLW1Entry::Text(t) => {
                push_text_line(result, id, t);
                if t.nexttextid != 0xFFFF && t.nexttextid < self.nodenum {
                    let nxt = self.entries[t.nexttextid as usize];
                    self.write_flow(t.nexttextid, nxt, result, converted);
                }
                proof {
                    assert(result@ =~= old(result)@ + spec_render(
                        self@,
                        id,
                        node,
                        old(converted)@,
                    ).0);
                }
            },
            FLW1Entry::Condition(con) => {
                let tid = self.branch_target(con.branchnodeid as usize);
                let fid = self.branch_target(con.branchnodeid as usize + 1);
                push_condition_line(result, id, con, tid, fid);
                let ghost mid = result@;
                let ghost r1 = (if (tid as int) < self@.nodenum as int {
                    spec_render(self@, tid, self@.entries[tid as int], vis1)
                } else {
                    (Seq::<char>::empty(), vis1)
                });
                if tid < self.nodenum {
                    let tn = self.entries[tid as usize];
                    self.write_flow(tid, tn, result, converted);
                    proof {
                        lemma_render_grows(self@, tid, self@.entries[tid as int], vis1);
                    }
                }
                proof {
                    assert(converted@ == r1.1);
                    assert(result@ =~= mid + r1.0);
                    lemma_or_absorb(r1.1, vis1);
                    assert(seq_or(r1.1, vis1) == r1.1);
                    lemma_count_or_le(r1.1, vis1);
                }
                let ghost r2 = (if (fid as int) < self@.nodenum as int {
                    spec_render(self@, fid, self@.entries[fid as int], seq_or(r1.1, vis1))
                } else {
                    (Seq::<char>::empty(), seq_or(r1.1, vis1))
                });
                if fid < self.nodenum {
                    let fnode = self.entries[fid as usize];
                    self.write_flow(fid, fnode, result, converted);
                }
                proof {
                    assert(converted@ == r2.1);
                    assert(result@ =~= (mid + r1.0) + r2.0);
                    assert(result@ =~= old(result)@ + spec_render(
                        self@,
                        id,
                        node,
                        old(converted)@,
                    ).0);
                }
            },
            FLW1Entry::Event(ev) => {
                let nid = self.branch_target(ev.branchnodeid as usize);
                push_event_line(result, id, ev, nid);
                if nid < self.nodenum {
                    let nn = self.entries[nid as usize];
                    self.write_flow(nid, nn, result, converted);
                }
                proof {
                    assert(result@ =~= old(result)@ + spec_render(
                        self@,
                        id,
                        node,
                        old(converted)@,
                    ).0);
                }
            },
        }
    }

    /// Renders the flow of message `id`: locates the first text node whose
    /// message index matches and renders from it; yields the empty string,
    /// and leaves the visited set unchanged, when none matches.
    #[verifier::loop_isolation(false)]
    pub fn findnode(&self, id: u16, converted: &mut Vec<bool>) -> (r: String)
        requires
            self@.wf(),
            old(converted)@.len() == self@.nodenum as nat,
        ensures
            r@ == spec_findnode(self@, id, old(converted)@).0,
            final(converted)@ == spec_findnode(self@, id, old(converted)@).1,
            final(converted)@.len() == old(converted)@.len(),
    {
        let mut result = String::new();
        let n = self.nodenum;
        let mut i: u16 = 0;
        while i < n
            invariant
                i <= n,
                result@ == Seq::<char>::empty(),
                converted@ == old(converted)@,
                spec_find_text(self@, id, 0) == spec_find_text(self@, id, i as int),
            decreases n - i,
        {
            let node = self.entries[i as usize];
            let mut matched = false;
            if let FLW1Entry::Text(t) = node {
                if t.textid == id {
                    matched = true;
                }
            }
            if matched {
                proof {
                    assert(spec_find_text(self@, id, i as int) == Some(i as int));
                }
                self.write_flow(i, node, &mut result, converted);
                proof {
                    assert(Seq::<char>::empty() + spec_render(
                        self@,
                        i,
                        node,
                        old(converted)@,
                    ).0 =~= spec_render(self@, i, node, old(converted)@).0);
                }
                return result;
            }
            proof {
                assert(spec_find_text(self@, id, i as int) == spec_find_text(
                    self@,
                    id,
                    i as int + 1,
                ));
            }
            i = i + 1;
        }
        result
    }
}

/// Rendering a node the visited set already covers is a no-op: no output,
/// and the set comes back unchanged.
pub proof fn lemma_render_visited_no_op(v: FLW1View, id: u16, node: FLW1Entry, visited: Seq<bool>)
    requires
        (id as int) < visited.len(),
        visited[id as int],
    ensures
        spec_render(v, id, node, visited) == (Seq::<char>::empty(), visited),
{
}

/// Rendering the same node twice against the same visited set produces
/// output only on the first call; the second call is a no-op.
pub proof fn lemma_render_twice(v: FLW1View, id: u16, node: FLW1Entry, visited: Seq<bool>)
    requires
        (id as int) < visited.len(),
    ensures
        ({
            let r1 = spec_render(v, id, node, visited);
            spec_render(v, id, node, r1.1) == (Seq::<char>::empty(), r1.1)
        }),
{
    let r1 = spec_render(v, id, node, visited);
    lemma_render_grows(v, id, node, visited);
    lemma_render_visited_no_op(v, id, node, r1.1);
}

} // verus!
