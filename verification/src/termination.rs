//! Forced termination of a game family: the fixed two-pass kill plan
//! (graceful close first, forced kill second, every process name in each
//! pass), and the check of a fresh process listing afterwards.

use vstd::prelude::*;
use crate::errors::LaunchError;
use crate::game::{Game, kill_list, game_process_names};
use crate::text;

verus! {

/// One step of the termination sweep: close `name`, gracefully or by force.
#[derive(Clone, Debug)]
pub struct KillStep {
    pub name: String,
    pub forced: bool,
}

/// The shape of the termination plan for `g`: one graceful step per family
/// process name, in order, then one forced step per name, in order.  Each
/// step stands on its own, so no step's failure can keep a later name from
/// being attempted.
pub open spec fn plan_shape(g: Game, ks: Seq<KillStep>) -> bool {
    let n = kill_list(g).len();
    &&& ks.len() == 2 * n
    &&& forall|i: int| 0 <= i < n ==> ks[i].name@ == kill_list(g)[i] && !ks[i].forced
    &&& forall|i: int| 0 <= i < n ==> ks[n + i].name@ == kill_list(g)[i] && ks[n + i].forced
}

/// The termination plan for `g`.
pub fn termination_plan(g: Game) -> (r: Vec<KillStep>)
    ensures
        plan_shape(g, r@),
{
    let names = game_process_names(g);
    let ghost gn = kill_list(g).len() as int;
    let mut r: Vec<KillStep> = Vec::new();
    let mut i: usize = 0;
    while i < names.len()
        invariant
            names.deep_view() == kill_list(g),
            names@.len() == gn,
            i <= gn,
            r@.len() == i,
            forall|q: int| 0 <= q < i ==> r@[q].name@ == kill_list(g)[q] && !r@[q].forced,
        decreases names@.len() - i,
    {
        proof {
            assert(names.deep_view()[i as int] == names@[i as int]@);
        }
        r.push(KillStep { name: names[i].clone(), forced: false });
        i += 1;
    }
    let mut j: usize = 0;
    while j < names.len()
        invariant
            names.deep_view() == kill_list(g),
            names@.len() == gn,
            j <= gn,
            r@.len() == gn + j,
            forall|q: int| 0 <= q < gn ==> r@[q].name@ == kill_list(g)[q] && !r@[q].forced,
            forall|q: int| 0 <= q < j ==> r@[gn + q].name@ == kill_list(g)[q] && r@[gn
                + q].forced,
        decreases names@.len() - j,
    {
        proof {
            assert(names.deep_view()[j as int] == names@[j as int]@);
        }
        let ghost r_before = r@;
        r.push(KillStep { name: names[j].clone(), forced: true });
        proof {
            assert(r@.len() == gn + j + 1);
            assert(r@[gn + j as int].name@ == names@[j as int]@);
            assert(r@[gn + j as int].forced);
            assert(forall|q: int| 0 <= q < gn + j ==> r@[q] == r_before[q]);
        }
        j += 1;
    }
    r
}

/// Every name of the family gets a graceful attempt and a forced attempt of
/// its own in any plan of the right shape: the steps are per-name, so one
/// failing kill cannot swallow the attempts for the remaining names.
pub proof fn lemma_termination_covers_every_process(g: Game, ks: Seq<KillStep>)
    requires
        plan_shape(g, ks),
    ensures
        forall|k: int| #![trigger kill_list(g)[k]] 0 <= k < kill_list(g).len() ==> exists|i: int|
            #![trigger ks[i]]
            0 <= i < ks.len() && ks[i].name@ == kill_list(g)[k] && !ks[i].forced,
        forall|k: int| #![trigger kill_list(g)[k]] 0 <= k < kill_list(g).len() ==> exists|i: int|
            #![trigger ks[i]]
            0 <= i < ks.len() && ks[i].name@ == kill_list(g)[k] && ks[i].forced,
{
    let n = kill_list(g).len() as int;
    assert forall|k: int| #![trigger kill_list(g)[k]] 0 <= k < n implies exists|i: int|
        #![trigger ks[i]]
        0 <= i < ks.len() && ks[i].name@ == kill_list(g)[k] && !ks[i].forced by {
        assert(ks[k].name@ == kill_list(g)[k] && !ks[k].forced);
    }
    assert forall|k: int| #![trigger kill_list(g)[k]] 0 <= k < n implies exists|i: int|
        #![trigger ks[i]]
        0 <= i < ks.len() && ks[i].name@ == kill_list(g)[k] && ks[i].forced by {
        assert(ks[n + k].name@ == kill_list(g)[k] && ks[n + k].forced);
    }
}

/// The first of `names` that still occurs in the fresh process listing
/// `list`, if any.
pub fn first_surviving(list: &str, names: &Vec<String>) -> (r: Option<usize>)
    ensures
        r matches Option::Some(i) ==> 0 <= i < names@.len() && text::has_substring(
            list@,
            names@[i as int]@,
        ) && forall|q: int| 0 <= q < i ==> !text::has_substring(list@, names@[q]@),
        r is None ==> forall|q: int|
            0 <= q < names@.len() ==> !text::has_substring(list@, names@[q]@),
{
    let mut i: usize = 0;
    while i < names.len()
        invariant
            i <= names@.len(),
            forall|q: int| 0 <= q < i ==> !text::has_substring(list@, names@[q]@),
        decreases names@.len() - i,
    {
        if text::contains_substr(list, names[i].as_str()) {
            return Option::Some(i);
        }
        i += 1;
    }
    Option::None
}

/// Judge a termination sweep from the process listing taken after it: `Ok`
/// when no family process survives, otherwise the error naming the first
/// survivor.
pub fn termination_outcome(list: &str, names: &Vec<String>) -> (r: Result<(), LaunchError>)
    ensures
        r is Ok <==> forall|q: int|
            0 <= q < names@.len() ==> !text::has_substring(list@, names@[q]@),
        r matches Result::Err(e) ==> e matches LaunchError::ProcessTerminationFailed { name }
            && exists|i: int|
            {
                &&& 0 <= i < names@.len()
                &&& name@ == names@[i]@
                &&& text::has_substring(list@, names@[i]@)
            },
{
    match first_surviving(list, names) {
        Option::Some(i) => Result::Err(
            LaunchError::ProcessTerminationFailed { name: names[i].clone() },
        ),
        Option::None => Result::Ok(()),
    }
}

} // verus!
