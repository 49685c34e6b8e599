//! The registration publisher's plan: which (command, scope) declarations to
//! issue against the remote interaction API.

use crate::registry::Registry;
use vstd::prelude::*;

verus! {

/// One remote "declare command" call to issue: the command at this registry
/// position, declared in this scope.
#[derive(Clone, Copy, PartialEq, Eq, Structural, Debug)]
pub struct Registration {
    pub command_index: usize,
    pub scope: u64,
}

/// The declarations of the command at position `i`, one per scope, in scope
/// order.
pub open spec fn command_row(i: int, scopes: Seq<u64>) -> Seq<Registration> {
    Seq::new(scopes.len(), |j: int| Registration { command_index: i as usize, scope: scopes[j] })
}

/// The declarations of the first `n` commands, command by command.
pub open spec fn plan_rows(n: int, scopes: Seq<u64>) -> Seq<Registration>
    decreases n,
{
    if n <= 0 {
        Seq::empty()
    } else {
        plan_rows(n - 1, scopes) + command_row(n - 1, scopes)
    }
}

/// The full registration plan covers every (command, scope) pair once.
pub proof fn lemma_plan_rows_len(n: int, scopes: Seq<u64>)
    requires
        n >= 0,
    ensures
        plan_rows(n, scopes).len() == n * scopes.len(),
    decreases n,
{
    let l = scopes.len() as int;
    if n > 0 {
        lemma_plan_rows_len(n - 1, scopes);
        assert(plan_rows(n, scopes).len() == (n - 1) * l + l);
        assert((n - 1) * l + l == n * l) by (nonlinear_arith);
        assert(plan_rows(n, scopes).len() == n * l);
    } else {
        assert(plan_rows(0, scopes).len() == 0);
        assert(n * l == 0) by (nonlinear_arith)
            requires
                n == 0,
        ;
    }
}

/// The pair (command `i`, scope `j`) stands at position `i * scopes.len() + j`
/// of the plan: commands in registry order, scopes in their given order.
pub proof fn lemma_plan_rows_index(n: int, scopes: Seq<u64>, i: int, j: int)
    requires
        0 <= i < n,
        0 <= j < scopes.len(),
    ensures
        0 <= i * scopes.len() + j < plan_rows(n, scopes).len(),
        plan_rows(n, scopes)[i * scopes.len() + j] == (Registration {
            command_index: i as usize,
            scope: scopes[j],
        }),
    decreases n,
{
    lemma_plan_rows_len(n, scopes);
    lemma_plan_rows_len(n - 1, scopes);
    assert(0 <= i * scopes.len() && (i + 1) * scopes.len() <= n * scopes.len()) by (
    nonlinear_arith)
        requires
            0 <= i < n && scopes.len() >= 0,
    ;
    assert((i + 1) * scopes.len() == i * scopes.len() + scopes.len()) by (nonlinear_arith);
    if i < n - 1 {
        lemma_plan_rows_index(n - 1, scopes, i, j);
    } else {
        assert(i * scopes.len() + j - plan_rows(n - 1, scopes).len() == j);
    }
}

/// Enumerates every (command, scope) pair to declare: for each command of the
/// registry, one declaration per scope. The calls are independent; the
/// shell issues them in plan order and aborts on the first failure.
pub fn registration_plan<H, E>(registry: &Registry<H, E>, scopes: &Vec<u64>) -> (r: Vec<
    Registration,
>)
    ensures
        r@ == plan_rows(registry.commands@.len() as int, scopes@),
{
    let mut r: Vec<Registration> = Vec::new();
    let n = registry.len();
    let mut i: usize = 0;
    while i < n
        invariant
            n == registry.commands@.len(),
            0 <= i <= n,
            r@ == plan_rows(i as int, scopes@),
        decreases n - i,
    {
        let mut j: usize = 0;
        while j < scopes.len()
            invariant
                n == registry.commands@.len(),
                0 <= i < n,
                0 <= j <= scopes@.len(),
                r@ == plan_rows(i as int, scopes@) + command_row(i as int, scopes@).take(j as int),
            decreases scopes@.len() - j,
        {
            r.push(Registration { command_index: i, scope: scopes[j] });
            proof {
                assert(command_row(i as int, scopes@).take(j + 1) =~= command_row(
                    i as int,
                    scopes@,
                ).take(j as int).push(command_row(i as int, scopes@)[j as int]));
                assert(r@ =~= plan_rows(i as int, scopes@) + command_row(i as int, scopes@).take(
                    j + 1,
                ));
            }
            j += 1;
        }
        proof {
            assert(command_row(i as int, scopes@).take(scopes@.len() as int) =~= command_row(
                i as int,
                scopes@,
            ));
            assert(r@ =~= plan_rows(i as int + 1, scopes@));
        }
        i += 1;
    }
    r
}

} // verus!
