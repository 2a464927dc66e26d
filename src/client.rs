use vstd::prelude::*;
use vstd::string::StringExecFns;

use crate::task::MiseTask;
use crate::text::{decimal, decimal_string, lemma_decimal_injective};

verus! {

/// Handle on the external task runner. The operations that reach the task
/// runner itself live with the program; the naming policy lives here.
pub struct MiseClient;

/// `desired` with the numeric suffix `-k`.
pub open spec fn numbered(desired: Seq<char>, k: nat) -> Seq<char> {
    desired + seq!['-'] + decimal(k)
}

/// The names of `tasks`, in order.
pub open spec fn task_names(tasks: Seq<MiseTask>) -> Seq<Seq<char>> {
    tasks.map_values(|t: MiseTask| t.name@)
}

/// Renaming to `candidate` collides with a task other than `old_name`.
pub open spec fn collides(names: Seq<Seq<char>>, candidate: Seq<char>, old_name: Seq<char>) -> bool {
    candidate != old_name && exists|i: int| 0 <= i < names.len() && #[trigger] names[i] == candidate
}

/// The name that a rename to `desired` stores: `desired` when it is free,
/// else `desired-k` for the smallest `k >= 1` that is free.
pub open spec fn unique_name(
    names: Seq<Seq<char>>,
    desired: Seq<char>,
    old_name: Seq<char>,
    r: Seq<char>,
) -> bool {
    if !collides(names, desired, old_name) {
        r == desired
    } else {
        exists|k: nat|
            k >= 1 && r == numbered(desired, k) && !collides(names, numbered(desired, k), old_name)
                && forall|j: nat| 1 <= j < k ==> collides(names, #[trigger] numbered(desired, j), old_name)
    }
}

/// `x` is `desired-k` for some `k >= c`.
pub open spec fn numbered_from(x: Seq<char>, desired: Seq<char>, c: nat) -> bool {
    exists|k: nat| k >= c && x == #[trigger] numbered(desired, k)
}

/// How many of `names` are `desired-k` for some `k >= c`.
pub open spec fn count_numbered_from(names: Seq<Seq<char>>, desired: Seq<char>, c: nat) -> nat
    decreases names.len(),
{
    if names.len() == 0 {
        0
    } else {
        count_numbered_from(names.drop_last(), desired, c) + if numbered_from(
            names.last(),
            desired,
            c,
        ) {
            1nat
        } else {
            0nat
        }
    }
}

proof fn lemma_numbered_injective(desired: Seq<char>, a: nat, b: nat)
    requires
        numbered(desired, a) == numbered(desired, b),
    ensures
        a == b,
{
    let n = desired.len() + 1;
    assert(numbered(desired, a).subrange(n as int, numbered(desired, a).len() as int) =~= decimal(a));
    assert(numbered(desired, b).subrange(n as int, numbered(desired, b).len() as int) =~= decimal(b));
    lemma_decimal_injective(a, b);
}

proof fn lemma_count_step(names: Seq<Seq<char>>, desired: Seq<char>, c: nat)
    ensures
        count_numbered_from(names, desired, c + 1) <= count_numbered_from(names, desired, c),
        count_numbered_from(names, desired, c) <= names.len(),
        (exists|i: int| 0 <= i < names.len() && #[trigger] names[i] == numbered(desired, c))
            ==> count_numbered_from(names, desired, c + 1) < count_numbered_from(names, desired, c),
    decreases names.len(),
{
    if names.len() > 0 {
        let rest = names.drop_last();
        let x = names.last();
        lemma_count_step(rest, desired, c);
        if numbered_from(x, desired, c + 1) {
            let k = choose|k: nat| k >= c + 1 && x == #[trigger] numbered(desired, k);
            assert(numbered_from(x, desired, c));
        }
        if x == numbered(desired, c) {
            assert(numbered_from(x, desired, c));
            if numbered_from(x, desired, c + 1) {
                let k = choose|k: nat| k >= c + 1 && x == #[trigger] numbered(desired, k);
                lemma_numbered_injective(desired, k, c);
            }
        }
        if exists|i: int| 0 <= i < names.len() && #[trigger] names[i] == numbered(desired, c) {
            let i = choose|i: int| 0 <= i < names.len() && #[trigger] names[i] == numbered(desired, c);
            if i < names.len() - 1 {
                assert(rest[i] == names[i]);
            }
        }
    }
}

impl Default for MiseClient {
    fn default() -> (r: Self)
        ensures
            r == MiseClient,
    {
        MiseClient::new()
    }
}

impl MiseClient {
    pub fn new() -> (r: Self)
        ensures
            r == MiseClient,
    {
        MiseClient
    }

    /// The name that renaming `old_name` to `desired_name` stores, given the
    /// existing tasks: `desired_name` if no other task has it, else the
    /// first of `desired_name-1`, `desired_name-2`, ... that is free.
    pub fn find_unique_task_name(
        &self,
        desired_name: &str,
        existing_tasks: &[MiseTask],
        old_name: &str,
    ) -> (r: String)
        requires
            existing_tasks@.len() < usize::MAX,
        ensures
            unique_name(task_names(existing_tasks@), desired_name@, old_name@, r@),
    {
        let ghost names = task_names(existing_tasks@);
        let old_owned = old_name.to_owned();
        let desired = desired_name.to_owned();
        if !has_collision(existing_tasks, &desired, &old_owned) {
            return desired;
        }
        let mut counter: usize = 1;
        let mut candidate = numbered_name(&desired, counter);
        proof {
            lemma_count_step(names, desired@, 1);
        }
        while has_collision(existing_tasks, &candidate, &old_owned)
            invariant
                names == task_names(existing_tasks@),
                existing_tasks@.len() < usize::MAX,
                desired@ == desired_name@,
                old_owned@ == old_name@,
                collides(names, desired@, old_name@),
                counter >= 1,
                candidate@ == numbered(desired@, counter as nat),
                forall|j: nat| 1 <= j < counter ==> collides(names, #[trigger] numbered(desired@, j), old_name@),
                counter - 1 + count_numbered_from(names, desired@, counter as nat) <= names.len(),
            decreases count_numbered_from(names, desired@, counter as nat),
        {
            proof {
                let i = choose|i: int| 0 <= i < names.len() && #[trigger] names[i] == candidate@;
                assert(names[i] == numbered(desired@, counter as nat));
                lemma_count_step(names, desired@, counter as nat);
                lemma_count_step(names, desired@, (counter + 1) as nat);
            }
            counter += 1;
            candidate = numbered_name(&desired, counter);
        }
        proof {
            assert(unique_name(names, desired_name@, old_name@, candidate@)) by {
                assert(candidate@ == numbered(desired_name@, counter as nat));
            }
        }
        candidate
    }
}

/// `desired-k`.
fn numbered_name(desired: &String, k: usize) -> (r: String)
    ensures
        r@ == numbered(desired@, k as nat),
{
    let mut out = desired.clone();
    out.append("-");
    proof {
        reveal_strlit("-");
    }
    let digits = decimal_string(k as u128);
    out.append(digits.as_str());
    out
}

/// Whether renaming to `candidate` collides with a task other than `old_name`.
fn has_collision(tasks: &[MiseTask], candidate: &String, old_name: &String) -> (r: bool)
    ensures
        r == collides(task_names(tasks@), candidate@, old_name@),
{
    if *candidate == *old_name {
        return false;
    }
    let mut i: usize = 0;
    while i < tasks.len()
        invariant
            i <= tasks@.len(),
            candidate@ != old_name@,
            forall|k: int| 0 <= k < i ==> #[trigger] task_names(tasks@)[k] != candidate@,
        decreases tasks@.len() - i,
    {
        if tasks[i].name == *candidate {
            assert(task_names(tasks@)[i as int] == candidate@);
            return true;
        }
        i += 1;
    }
    false
}

} // verus!
