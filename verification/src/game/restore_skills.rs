use vstd::prelude::*;

verus! {

/// The experience a player holds in one skill.
#[derive(Clone, Copy, Debug, PartialEq, Eq, Structural)]
pub struct ExperienceStack {
    pub skill_id: i32,
    pub quantity: i32,
}

/// The experience row of one player: one stack per skill, in insertion order.
#[derive(Clone, Debug)]
pub struct ExperienceState {
    pub entity_id: u64,
    pub experience_stacks: Vec<ExperienceStack>,
}

/// A request to restore a player's skills to at least the given levels.
#[derive(Clone, Debug)]
pub struct RestoreSkillsMsg {
    pub player_entity_id: u64,
    pub experience_stacks: Vec<ExperienceStack>,
}

/// `i` is the first position of `stacks` that holds skill `skill_id`.
pub open spec fn is_first_slot(stacks: Seq<ExperienceStack>, skill_id: i32, i: int) -> bool {
    &&& 0 <= i < stacks.len()
    &&& stacks[i].skill_id == skill_id
    &&& forall|j: int| 0 <= j < i ==> stacks[j].skill_id != skill_id
}

/// Some stack of `stacks` holds skill `skill_id`.
pub open spec fn holds_skill(stacks: Seq<ExperienceStack>, skill_id: i32) -> bool {
    exists|i: int| is_first_slot(stacks, skill_id, i)
}

pub open spec fn max_i32(a: i32, b: i32) -> i32 {
    if a >= b { a } else { b }
}

/// One incoming stack restored into `stacks`: the first stack of the same
/// skill is raised to at least the incoming quantity; a skill not yet held
/// is appended.
pub open spec fn restore_one(stacks: Seq<ExperienceStack>, incoming: ExperienceStack) -> Seq<ExperienceStack> {
    if holds_skill(stacks, incoming.skill_id) {
        let i = choose|i: int| is_first_slot(stacks, incoming.skill_id, i);
        stacks.update(i, ExperienceStack {
            skill_id: incoming.skill_id,
            quantity: max_i32(stacks[i].quantity, incoming.quantity),
        })
    } else {
        stacks.push(incoming)
    }
}

/// All incoming stacks restored into `stacks`, in order.
pub open spec fn restored_stacks(stacks: Seq<ExperienceStack>, incoming: Seq<ExperienceStack>) -> Seq<ExperienceStack>
    decreases incoming.len(),
{
    if incoming.len() == 0 {
        stacks
    } else {
        restore_one(restored_stacks(stacks, incoming.drop_last()), incoming.last())
    }
}

/// The first slot of a skill is unique.
proof fn lemma_first_slot_unique(stacks: Seq<ExperienceStack>, skill_id: i32, i: int, k: int)
    requires
        is_first_slot(stacks, skill_id, i),
        is_first_slot(stacks, skill_id, k),
    ensures
        i == k,
{
}

/// `stacks` holds the skill of `incoming` at its first slot with at least
/// the incoming quantity.
pub open spec fn covers_stack(stacks: Seq<ExperienceStack>, incoming: ExperienceStack) -> bool {
    exists|i: int| #[trigger] is_first_slot(stacks, incoming.skill_id, i) && stacks[i].quantity >= incoming.quantity
}

/// Every incoming stack is covered by `stacks`.
pub open spec fn covers(stacks: Seq<ExperienceStack>, incoming: Seq<ExperienceStack>) -> bool {
    forall|k: int| 0 <= k < incoming.len() ==> #[trigger] covers_stack(stacks, incoming[k])
}

/// `grown` keeps every stack of `stacks` at its position, with the same
/// skill and no less experience.
pub open spec fn keeps_and_raises(stacks: Seq<ExperienceStack>, grown: Seq<ExperienceStack>) -> bool {
    &&& grown.len() >= stacks.len()
    &&& forall|j: int| 0 <= j < stacks.len() ==> {
        &&& #[trigger] grown[j].skill_id == stacks[j].skill_id
        &&& grown[j].quantity >= stacks[j].quantity
    }
}

proof fn lemma_some_slot_has_first(stacks: Seq<ExperienceStack>, skill_id: i32, j: int)
    requires
        0 <= j < stacks.len(),
        stacks[j].skill_id == skill_id,
    ensures
        holds_skill(stacks, skill_id),
    decreases j,
{
    if forall|i: int| 0 <= i < j ==> stacks[i].skill_id != skill_id {
        assert(is_first_slot(stacks, skill_id, j));
    } else {
        let i = choose|i: int| 0 <= i < j && stacks[i].skill_id == skill_id;
        lemma_some_slot_has_first(stacks, skill_id, i);
    }
}

proof fn lemma_first_slot_kept(stacks: Seq<ExperienceStack>, grown: Seq<ExperienceStack>, skill_id: i32, i: int)
    requires
        keeps_and_raises(stacks, grown),
        is_first_slot(stacks, skill_id, i),
    ensures
        is_first_slot(grown, skill_id, i),
        grown[i].quantity >= stacks[i].quantity,
{
    assert forall|j: int| 0 <= j < i implies grown[j].skill_id != skill_id by {
        assert(grown[j].skill_id == stacks[j].skill_id);
    }
    assert(grown[i].skill_id == stacks[i].skill_id);
}

proof fn lemma_keeps_and_raises_trans(a: Seq<ExperienceStack>, b: Seq<ExperienceStack>, c: Seq<ExperienceStack>)
    requires
        keeps_and_raises(a, b),
        keeps_and_raises(b, c),
    ensures
        keeps_and_raises(a, c),
{
    assert forall|j: int| 0 <= j < a.len() implies {
        &&& #[trigger] c[j].skill_id == a[j].skill_id
        &&& c[j].quantity >= a[j].quantity
    } by {
        assert(b[j].skill_id == a[j].skill_id);
        assert(c[j].skill_id == b[j].skill_id);
    }
}

proof fn lemma_restore_one_keeps_and_raises(stacks: Seq<ExperienceStack>, incoming: ExperienceStack)
    ensures
        keeps_and_raises(stacks, restore_one(stacks, incoming)),
        covers_stack(restore_one(stacks, incoming), incoming),
{
    let r = restore_one(stacks, incoming);
    if holds_skill(stacks, incoming.skill_id) {
        let i = choose|i: int| is_first_slot(stacks, incoming.skill_id, i);
        assert(is_first_slot(r, incoming.skill_id, i));
    } else {
        assert forall|j: int| 0 <= j < stacks.len() implies stacks[j].skill_id != incoming.skill_id by {
            if stacks[j].skill_id == incoming.skill_id {
                lemma_some_slot_has_first(stacks, incoming.skill_id, j);
            }
        }
        assert(is_first_slot(r, incoming.skill_id, stacks.len() as int));
    }
}

/// Restoring never lowers a skill: every stack the player held keeps its
/// position and skill, with no less experience than before.
pub proof fn lemma_restore_never_lowers(stacks: Seq<ExperienceStack>, incoming: Seq<ExperienceStack>)
    ensures
        keeps_and_raises(stacks, restored_stacks(stacks, incoming)),
    decreases incoming.len(),
{
    if incoming.len() > 0 {
        let before = restored_stacks(stacks, incoming.drop_last());
        lemma_restore_never_lowers(stacks, incoming.drop_last());
        lemma_restore_one_keeps_and_raises(before, incoming.last());
        lemma_keeps_and_raises_trans(stacks, before, restored_stacks(stacks, incoming));
    }
}

/// After a restore the player holds every restored skill, at its first
/// stack, with at least the requested experience.
pub proof fn lemma_restore_reaches_requested(stacks: Seq<ExperienceStack>, incoming: Seq<ExperienceStack>)
    ensures
        covers(restored_stacks(stacks, incoming), incoming),
    decreases incoming.len(),
{
    if incoming.len() > 0 {
        let prefix = incoming.drop_last();
        let before = restored_stacks(stacks, prefix);
        let after = restored_stacks(stacks, incoming);
        lemma_restore_reaches_requested(stacks, prefix);
        lemma_restore_one_keeps_and_raises(before, incoming.last());
        assert(after == restore_one(before, incoming.last()));
        assert forall|k: int| 0 <= k < incoming.len() implies #[trigger] covers_stack(after, incoming[k]) by {
            if k < incoming.len() - 1 {
                assert(prefix[k] == incoming[k]);
                assert(covers_stack(before, prefix[k]));
                let i = choose|i: int|
                    #[trigger] is_first_slot(before, prefix[k].skill_id, i) && before[i].quantity >= prefix[k].quantity;
                lemma_first_slot_kept(before, after, prefix[k].skill_id, i);
            } else {
                assert(incoming[k] == incoming.last());
            }
        }
    }
}

/// Restoring stacks that already cover the request changes nothing.
proof fn lemma_restore_covered_is_noop(stacks: Seq<ExperienceStack>, incoming: Seq<ExperienceStack>)
    requires
        covers(stacks, incoming),
    ensures
        restored_stacks(stacks, incoming) == stacks,
    decreases incoming.len(),
{
    if incoming.len() > 0 {
        let prefix = incoming.drop_last();
        let s = incoming.last();
        assert forall|k: int| 0 <= k < prefix.len() implies #[trigger] covers_stack(stacks, prefix[k]) by {
            assert(prefix[k] == incoming[k]);
            assert(covers_stack(stacks, incoming[k]));
        }
        lemma_restore_covered_is_noop(stacks, prefix);
        assert(covers_stack(stacks, incoming[incoming.len() - 1]));
        let i = choose|i: int|
            #[trigger] is_first_slot(stacks, s.skill_id, i) && stacks[i].quantity >= s.quantity;
        let c = choose|c: int| is_first_slot(stacks, s.skill_id, c);
        lemma_first_slot_unique(stacks, s.skill_id, i, c);
        assert(restore_one(stacks, s) =~= stacks);
    }
}

/// Restoring is idempotent: delivering the same restore twice leaves the
/// player as one delivery does.
pub proof fn lemma_restore_idempotent(stacks: Seq<ExperienceStack>, incoming: Seq<ExperienceStack>)
    ensures
        restored_stacks(restored_stacks(stacks, incoming), incoming) == restored_stacks(stacks, incoming),
{
    lemma_restore_reaches_requested(stacks, incoming);
    lemma_restore_covered_is_noop(restored_stacks(stacks, incoming), incoming);
}

/// Some incoming stack of skill `skill_id` has quantity `quantity`.
pub open spec fn offered(incoming: Seq<ExperienceStack>, skill_id: i32, quantity: i32) -> bool {
    exists|k: int| 0 <= k < incoming.len() && #[trigger] incoming[k] == (ExperienceStack { skill_id, quantity })
}

/// What a restore may do to the player's stacks, and nothing else: a stack
/// the player held keeps its skill and either stays as it was or, if it is
/// the first stack of its skill, takes the quantity of an incoming stack of
/// that skill; a stack added after them is an incoming stack of a skill
/// that no earlier stack holds; at most one stack is added per incoming
/// stack.
pub open spec fn restore_stays_within(stacks: Seq<ExperienceStack>, incoming: Seq<ExperienceStack>, result: Seq<ExperienceStack>) -> bool {
    &&& stacks.len() <= result.len() <= stacks.len() + incoming.len()
    &&& forall|j: int| 0 <= j < stacks.len() ==> {
        ||| #[trigger] result[j] == stacks[j]
        ||| is_first_slot(stacks, stacks[j].skill_id, j) && result[j].skill_id == stacks[j].skill_id
            && offered(incoming, stacks[j].skill_id, result[j].quantity)
    }
    &&& forall|j: int| stacks.len() <= j < result.len() ==> {
        &&& offered(incoming, (#[trigger] result[j]).skill_id, result[j].quantity)
        &&& forall|i: int| 0 <= i < j ==> result[i].skill_id != result[j].skill_id
    }
}

proof fn lemma_offered_grows(incoming: Seq<ExperienceStack>, s: ExperienceStack, skill_id: i32, quantity: i32)
    requires
        offered(incoming, skill_id, quantity),
    ensures
        offered(incoming.push(s), skill_id, quantity),
{
    let k = choose|k: int| 0 <= k < incoming.len() && #[trigger] incoming[k] == (ExperienceStack { skill_id, quantity });
    assert(incoming.push(s)[k] == incoming[k]);
}

proof fn lemma_offered_last(incoming: Seq<ExperienceStack>, s: ExperienceStack)
    ensures
        offered(incoming.push(s), s.skill_id, s.quantity),
{
    assert(incoming.push(s)[incoming.len() as int] == s);
}

/// A restore only raises first stacks to requested quantities and appends
/// requested stacks of skills the player lacks: every quantity in the
/// result is the player's own or one that was requested for that skill, no
/// skill is appended twice, and nothing else changes.
pub proof fn lemma_restore_stays_within(stacks: Seq<ExperienceStack>, incoming: Seq<ExperienceStack>)
    ensures
        restore_stays_within(stacks, incoming, restored_stacks(stacks, incoming)),
    decreases incoming.len(),
{
    if incoming.len() > 0 {
        let prefix = incoming.drop_last();
        let s = incoming.last();
        let before = restored_stacks(stacks, prefix);
        let after = restored_stacks(stacks, incoming);
        lemma_restore_stays_within(stacks, prefix);
        lemma_restore_never_lowers(stacks, prefix);
        assert(prefix.push(s) =~= incoming);
        assert(after == restore_one(before, s));
        // every earlier claim about `prefix` carries over to `incoming`
        assert forall|skill_id: i32, quantity: i32| offered(prefix, skill_id, quantity) implies offered(incoming, skill_id, quantity) by {
            lemma_offered_grows(prefix, s, skill_id, quantity);
        }
        lemma_offered_last(prefix, s);
        if holds_skill(before, s.skill_id) {
            let i = choose|i: int| is_first_slot(before, s.skill_id, i);
            assert(after == before.update(i, ExperienceStack {
                skill_id: s.skill_id,
                quantity: max_i32(before[i].quantity, s.quantity),
            }));
            assert forall|j: int| 0 <= j < stacks.len() implies {
                ||| #[trigger] after[j] == stacks[j]
                ||| is_first_slot(stacks, stacks[j].skill_id, j) && after[j].skill_id == stacks[j].skill_id
                    && offered(incoming, stacks[j].skill_id, after[j].quantity)
            } by {
                assert(before[j].skill_id == stacks[j].skill_id);
                if j == i && after[j] != stacks[j] {
                    if before[j].quantity >= s.quantity {
                        assert(after[j] == before[j]);
                    } else {
                        assert forall|m: int| 0 <= m < j implies stacks[m].skill_id != stacks[j].skill_id by {
                            assert(before[m].skill_id == stacks[m].skill_id);
                        }
                    }
                }
            }
            assert forall|j: int| stacks.len() <= j < after.len() implies {
                &&& offered(incoming, (#[trigger] after[j]).skill_id, after[j].quantity)
                &&& forall|m: int| 0 <= m < j ==> after[m].skill_id != after[j].skill_id
            } by {
                assert(before[j].skill_id == after[j].skill_id);
                assert(offered(prefix, before[j].skill_id, before[j].quantity));
                assert forall|m: int| 0 <= m < j implies after[m].skill_id != after[j].skill_id by {
                    assert(after[m].skill_id == before[m].skill_id);
                }
            }
        } else {
            assert(after == before.push(s));
            assert forall|m: int| 0 <= m < before.len() implies before[m].skill_id != s.skill_id by {
                if before[m].skill_id == s.skill_id {
                    lemma_some_slot_has_first(before, s.skill_id, m);
                }
            }
            assert forall|j: int| 0 <= j < stacks.len() implies {
                ||| #[trigger] after[j] == stacks[j]
                ||| is_first_slot(stacks, stacks[j].skill_id, j) && after[j].skill_id == stacks[j].skill_id
                    && offered(incoming, stacks[j].skill_id, after[j].quantity)
            } by {
                assert(after[j] == before[j]);
            }
            assert forall|j: int| stacks.len() <= j < after.len() implies {
                &&& offered(incoming, (#[trigger] after[j]).skill_id, after[j].quantity)
                &&& forall|m: int| 0 <= m < j ==> after[m].skill_id != after[j].skill_id
            } by {
                if j < before.len() {
                    assert(after[j] == before[j]);
                    assert(offered(prefix, before[j].skill_id, before[j].quantity));
                    assert forall|m: int| 0 <= m < j implies after[m].skill_id != after[j].skill_id by {
                        assert(after[m] == before[m]);
                    }
                } else {
                    assert(after[j] == s);
                    assert forall|m: int| 0 <= m < j implies after[m].skill_id != after[j].skill_id by {
                        assert(after[m] == before[m]);
                    }
                }
            }
        }
    }
}

/// Restoring one stack: if the player holds its skill, the player's first
/// stack of that skill takes the larger of its quantity and the incoming
/// one and every other stack stays; otherwise the incoming stack is added
/// at the end.
pub proof fn lemma_restore_single(stacks: Seq<ExperienceStack>, incoming: ExperienceStack)
    ensures
        ({
            let r = restored_stacks(stacks, seq![incoming]);
            &&& (forall|j: int| 0 <= j < stacks.len() ==> stacks[j].skill_id != incoming.skill_id)
                ==> r == stacks.push(incoming)
            &&& forall|i: int| 0 <= i < stacks.len() && stacks[i].skill_id == incoming.skill_id
                && (forall|j: int| 0 <= j < i ==> stacks[j].skill_id != incoming.skill_id) ==> {
                &&& r.len() == stacks.len()
                &&& r[i].skill_id == incoming.skill_id
                &&& r[i].quantity == (if stacks[i].quantity >= incoming.quantity { stacks[i].quantity } else { incoming.quantity })
                &&& forall|j: int| 0 <= j < stacks.len() && j != i ==> r[j] == stacks[j]
            }
        }),
{
    assert(seq![incoming].drop_last() =~= Seq::<ExperienceStack>::empty());
    assert(seq![incoming].last() == incoming);
    let r = restored_stacks(stacks, seq![incoming]);
    assert(restored_stacks(stacks, Seq::<ExperienceStack>::empty()) == stacks);
    assert(r == restore_one(restored_stacks(stacks, seq![incoming].drop_last()), incoming));
    assert(r == restore_one(stacks, incoming));
    if holds_skill(stacks, incoming.skill_id) {
        let c = choose|c: int| is_first_slot(stacks, incoming.skill_id, c);
        assert forall|i: int| 0 <= i < stacks.len() && stacks[i].skill_id == incoming.skill_id
            && (forall|j: int| 0 <= j < i ==> stacks[j].skill_id != incoming.skill_id) implies i == c by {
            lemma_first_slot_unique(stacks, incoming.skill_id, i, c);
        }
    } else {
        assert forall|i: int| 0 <= i < stacks.len() && stacks[i].skill_id == incoming.skill_id implies
            !(forall|j: int| 0 <= j < i ==> stacks[j].skill_id != incoming.skill_id) by {
            if forall|j: int| 0 <= j < i ==> stacks[j].skill_id != incoming.skill_id {
                assert(is_first_slot(stacks, incoming.skill_id, i));
            }
        }
    }
}

/// Restoring stacks one request after another is restoring them in one
/// request, in the same order.
pub proof fn lemma_restore_composes(stacks: Seq<ExperienceStack>, first: Seq<ExperienceStack>, second: Seq<ExperienceStack>)
    ensures
        restored_stacks(stacks, first + second) == restored_stacks(restored_stacks(stacks, first), second),
    decreases second.len(),
{
    if second.len() == 0 {
        assert(first + second =~= first);
    } else {
        lemma_restore_composes(stacks, first, second.drop_last());
        assert((first + second).drop_last() =~= first + second.drop_last());
        assert((first + second).last() == second.last());
    }
}

/// Finds the first stack of skill `skill_id`.
fn find_first_slot(stacks: &Vec<ExperienceStack>, skill_id: i32) -> (res: Option<usize>)
    ensures
        match res {
            Some(i) => is_first_slot(stacks@, skill_id, i as int),
            None => forall|j: int| 0 <= j < stacks@.len() ==> stacks@[j].skill_id != skill_id,
        },
{
    let mut i: usize = 0;
    while i < stacks.len()
        invariant
            i <= stacks@.len(),
            forall|j: int| 0 <= j < i ==> stacks@[j].skill_id != skill_id,
        decreases stacks@.len() - i,
    {
        if stacks[i].skill_id == skill_id {
            return Some(i);
        }
        i = i + 1;
    }
    None
}

/// Restores one incoming stack into `stacks`.
fn restore_one_stack(stacks: &mut Vec<ExperienceStack>, incoming: ExperienceStack)
    ensures
        final(stacks)@ == restore_one(old(stacks)@, incoming),
{
    match find_first_slot(stacks, incoming.skill_id) {
        Some(i) => {
            let current = stacks[i].quantity;
            let quantity: i32 = if current >= incoming.quantity { current } else { incoming.quantity };
            stacks.set(i, ExperienceStack { skill_id: incoming.skill_id, quantity });
            proof {
                let k = choose|k: int| is_first_slot(old(stacks)@, incoming.skill_id, k);
                lemma_first_slot_unique(old(stacks)@, incoming.skill_id, i as int, k);
            }
        },
        None => {
            stacks.push(incoming);
        },
    }
}

/// Restores a player's experience: for each incoming stack, in order, the
/// player's first stack of that skill is raised to the incoming quantity if
/// it is lower, and a skill the player does not hold is appended.
pub fn process_message_on_destination(experience: &mut ExperienceState, request: RestoreSkillsMsg)
    ensures
        final(experience).entity_id == old(experience).entity_id,
        final(experience).experience_stacks@ == restored_stacks(
            old(experience).experience_stacks@,
            request.experience_stacks@,
        ),
{
    let incoming = &request.experience_stacks;
    let mut k: usize = 0;
    while k < incoming.len()
        invariant
            k <= incoming@.len(),
            experience.entity_id == old(experience).entity_id,
            experience.experience_stacks@ == restored_stacks(
                old(experience).experience_stacks@,
                incoming@.take(k as int),
            ),
        decreases incoming@.len() - k,
    {
        let stack = incoming[k];
        restore_one_stack(&mut experience.experience_stacks, stack);
        assert(incoming@.take(k + 1).drop_last() =~= incoming@.take(k as int));
        k = k + 1;
    }
    assert(incoming@.take(incoming@.len() as int) =~= incoming@);
}

} // verus!
