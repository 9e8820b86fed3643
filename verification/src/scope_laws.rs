//! What holds of the scope stack and the register pool.

use vstd::prelude::*;
use crate::error::CompilerErrorView;
use crate::scope::{lemma_bind, lemma_position_from, Register, ScopeModel, ScopesModel};

verus! {

/// Declares the names from position `from` on, in order, in the current
/// scope. A declaration that fails changes what it changes and the walk goes
/// on.
pub open spec fn declare_all(scopes: ScopesModel, names: Seq<Seq<char>>, from: int) -> ScopesModel
    decreases names.len() - from,
{
    if 0 <= from < names.len() {
        declare_all(scopes.add_decl(names[from]).0, names, from + 1)
    } else {
        scopes
    }
}

/// The frames below the current one.
pub open spec fn enclosing(scopes: ScopesModel) -> Seq<ScopeModel> {
    scopes.frames.drop_last()
}

/// A fresh scope stack is well formed, its pool is disjoint from its frames,
/// and the pool holds every register but the largest, in rising order.
pub proof fn lemma_fresh_scopes()
    ensures
        ScopesModel::fresh().wf(),
        ScopesModel::fresh().pool_is_disjoint(),
        ScopesModel::fresh().free.len() == 255,
        forall|i: int| 0 <= i < 255 ==> ScopesModel::fresh().free[i] == i,
{
    let fresh = ScopesModel::fresh();
    assert forall|i: int| 0 <= i < fresh.free.len() implies !fresh.uses(
        #[trigger] fresh.free[i],
    ) by {
        assert forall|k: int| 0 <= k < fresh.frames.len() implies !(
        #[trigger] fresh.frames[k]).uses(fresh.free[i]) by {
            assert(fresh.frames[k].used_registers() =~= Seq::<Register>::empty());
        }
    }
}

/// Declaring a name and reserving a register touch the current frame and the
/// pool only: the depth of the stack and the frames below the current one
/// stay as they are.
pub proof fn lemma_allocation_keeps_enclosing_frames(scopes: ScopesModel, name: Seq<char>)
    ensures
        scopes.add_decl(name).0.frames.len() == scopes.frames.len(),
        enclosing(scopes.add_decl(name).0) == enclosing(scopes),
        scopes.take_front().0.frames == scopes.frames,
        scopes.take_back().0.frames == scopes.frames,
{
    let after = scopes.add_decl(name).0;
    if scopes.free.len() > 0 && scopes.frames.len() > 0 {
        assert(enclosing(after) =~= enclosing(scopes));
    }
}

/// Declaring a name and reserving a register keep every frame free of
/// double bindings.
pub proof fn lemma_allocation_keeps_wf(scopes: ScopesModel, name: Seq<char>)
    requires
        scopes.wf(),
    ensures
        scopes.add_decl(name).0.wf(),
        scopes.take_front().0.wf(),
        scopes.take_back().0.wf(),
{
    let after = scopes.add_decl(name).0;
    if scopes.free.len() > 0 && scopes.frames.len() > 0 {
        let top = scopes.frames.len() - 1;
        lemma_bind(scopes.frames[top], name, scopes.free.first());
        assert forall|i: int| 0 <= i < after.frames.len() implies (
        #[trigger] after.frames[i]).wf() by {
            if i < top {
                assert(scopes.frames[i].wf());
            }
        }
    }
}

/// Entering a scope and leaving it again gives back the frames that were
/// there before, whatever was declared in between: a name resolves
/// afterwards exactly as it did before.
pub proof fn lemma_enter_then_leave_restores_bindings(
    scopes: ScopesModel,
    names: Seq<Seq<char>>,
    name: Seq<char>,
)
    requires
        scopes.frames.len() > 0,
    ensures
        scopes.enter().1 is Ok,
        declare_all(scopes.enter().0, names, 0).leave().1 is Ok,
        declare_all(scopes.enter().0, names, 0).leave().0.frames == scopes.frames,
        declare_all(scopes.enter().0, names, 0).leave().0.get_var(name) == scopes.get_var(name),
{
    let entered = scopes.enter().0;
    assert(enclosing(entered) =~= scopes.frames);
    lemma_declare_all_keeps_enclosing_frames(entered, names, 0);
}

/// Declaring names keeps the depth of the stack and the frames below the
/// current one.
pub proof fn lemma_declare_all_keeps_enclosing_frames(
    scopes: ScopesModel,
    names: Seq<Seq<char>>,
    from: int,
)
    ensures
        declare_all(scopes, names, from).frames.len() == scopes.frames.len(),
        enclosing(declare_all(scopes, names, from)) == enclosing(scopes),
    decreases names.len() - from,
{
    if 0 <= from < names.len() {
        lemma_allocation_keeps_enclosing_frames(scopes, names[from]);
        lemma_declare_all_keeps_enclosing_frames(scopes.add_decl(names[from]).0, names, from + 1);
    }
}

/// A name that is declared in a scope resolves, in that scope, to the
/// register that the declaration returned; every other name resolves as
/// before.
pub proof fn lemma_declared_name_resolves(scopes: ScopesModel, name: Seq<char>, other: Seq<char>)
    requires
        scopes.add_decl(name).1 is Ok,
    ensures
        scopes.add_decl(name).0.get_var(name) == scopes.add_decl(name).1,
        scopes.add_decl(name).1 == Ok::<Register, CompilerErrorView>(
            scopes.free.first(),
        ),
        other != name ==> scopes.add_decl(name).0.get_var(other) == scopes.get_var(other),
{
    lemma_bind(scopes.frames.last(), name, scopes.free.first());
}

/// The registers that a scope refers to after a name was bound are those
/// that it referred to before, and the new one.
pub proof fn lemma_bind_uses(scope: ScopeModel, name: Seq<char>, register: Register, x: Register)
    ensures
        scope.bind(name, register).uses(x) ==> scope.uses(x) || x == register,
        scope.bind(name, register).uses(register),
{
    let after = scope.bind(name, register);
    let at = scope.position(name);
    let shift = scope.temporaries.len() as int;
    lemma_position_from(scope.bindings, name, 0);
    if after.uses(x) {
        let k = choose|k: int|
            0 <= k < after.used_registers().len() && after.used_registers()[k] == x;
        if k < shift {
            assert(scope.used_registers()[k] == x);
        } else if k - shift == at {
            assert(x == register);
        } else {
            assert(scope.used_registers()[k] == x);
        }
    }
    assert(after.used_registers()[shift + at] == register);
}

/// Taking a register: the pool shrinks by exactly that register. Where the
/// pool is disjoint from the frames, no frame refers to the register, and
/// the pool stays disjoint.
pub proof fn lemma_reserved_register_is_unused(scopes: ScopesModel)
    requires
        scopes.take_front().1 is Ok,
    ensures
        scopes.take_front().0.free.len() == scopes.free.len() - 1,
        scopes.take_front().0.free == scopes.free.drop_first(),
        scopes.pool_is_disjoint() ==> !scopes.uses(scopes.take_front().1->Ok_0),
        scopes.pool_is_disjoint() ==> !scopes.take_front().0.free.contains(
            scopes.take_front().1->Ok_0,
        ),
        scopes.pool_is_disjoint() ==> scopes.take_front().0.pool_is_disjoint(),
{
    let after = scopes.take_front().0;
    let register = scopes.free.first();
    if scopes.pool_is_disjoint() {
        assert(!scopes.uses(scopes.free[0]));
        assert forall|i: int| 0 <= i < after.free.len() implies !after.uses(
            #[trigger] after.free[i],
        ) by {
            assert(after.free[i] == scopes.free[i + 1]);
            if after.uses(after.free[i]) {
                let k = choose|k: int|
                    0 <= k < after.frames.len() && (#[trigger] after.frames[k]).uses(after.free[i]);
                assert(scopes.frames[k].uses(scopes.free[i + 1]));
            }
        }
        assert(after.free.no_duplicates()) by {
            assert forall|i: int, j: int|
                0 <= i < after.free.len() && 0 <= j < after.free.len() && i != j implies
                after.free[i] != after.free[j] by {
                assert(after.free[i] == scopes.free[i + 1]);
                assert(after.free[j] == scopes.free[j + 1]);
            }
        }
        if after.free.contains(register) {
            let i = choose|i: int| 0 <= i < after.free.len() && after.free[i] == register;
            assert(scopes.free[i + 1] == scopes.free[0]);
        }
    }
}

/// Declaring a name: the pool shrinks by exactly one register. Where the pool
/// is disjoint from the frames, the register that the name gets is one that
/// no frame referred to, so no binding that is alive shares it, and the pool
/// stays disjoint.
pub proof fn lemma_declared_register_is_unused(scopes: ScopesModel, name: Seq<char>)
    requires
        scopes.add_decl(name).1 is Ok,
    ensures
        scopes.add_decl(name).0.free.len() == scopes.free.len() - 1,
        scopes.add_decl(name).0.free == scopes.free.drop_first(),
        scopes.pool_is_disjoint() ==> !scopes.uses(scopes.add_decl(name).1->Ok_0),
        scopes.pool_is_disjoint() ==> scopes.add_decl(name).0.pool_is_disjoint(),
{
    let taken = scopes.take_front().0;
    let register = scopes.free.first();
    let after = scopes.add_decl(name).0;
    lemma_reserved_register_is_unused(scopes);
    if scopes.pool_is_disjoint() {
        let top = taken.frames.len() - 1;
        assert forall|i: int| 0 <= i < after.free.len() implies !after.uses(
            #[trigger] after.free[i],
        ) by {
            let x = after.free[i];
            assert(x == taken.free[i]);
            assert(!taken.uses(x));
            assert(taken.free.contains(x));
            if after.uses(x) {
                let k = choose|k: int|
                    0 <= k < after.frames.len() && (#[trigger] after.frames[k]).uses(x);
                if k == top {
                    lemma_bind_uses(taken.frames[top], name, register, x);
                    assert(taken.frames[top].uses(x));
                } else {
                    assert(after.frames[k] == taken.frames[k]);
                    assert(taken.frames[k].uses(x));
                }
            }
        }
    }
}

/// Entering a scope keeps the pool disjoint from the frames, and keeps the
/// pool itself.
pub proof fn lemma_enter_keeps_pool(scopes: ScopesModel)
    requires
        scopes.enter().1 is Ok,
    ensures
        scopes.enter().0.free == scopes.free,
        scopes.wf() ==> scopes.enter().0.wf(),
        scopes.pool_is_disjoint() ==> scopes.enter().0.pool_is_disjoint(),
{
    let after = scopes.enter().0;
    let top = scopes.frames.len() - 1;
    if scopes.pool_is_disjoint() {
        assert forall|i: int| 0 <= i < after.free.len() implies !after.uses(
            #[trigger] after.free[i],
        ) by {
            let x = after.free[i];
            assert(!scopes.uses(scopes.free[i]));
            if after.uses(x) {
                let k = choose|k: int|
                    0 <= k < after.frames.len() && (#[trigger] after.frames[k]).uses(x);
                if k == top + 1 {
                    let snapshot = after.frames[k];
                    let j = choose|j: int|
                        0 <= j < snapshot.used_registers().len() && snapshot.used_registers()[j]
                            == x;
                    let shift = scopes.frames[top].temporaries.len() as int;
                    assert(scopes.frames[top].used_registers()[shift + j] == x);
                    assert(scopes.frames[top].uses(x));
                } else {
                    assert(scopes.frames[k].uses(x));
                }
            }
        }
    }
    if scopes.wf() {
        assert forall|i: int| 0 <= i < after.frames.len() implies (
        #[trigger] after.frames[i]).wf() by {
            if i == top + 1 {
                assert(scopes.frames[top].wf());
            } else {
                assert(scopes.frames[i].wf());
            }
        }
    }
}

/// Leaving a scope puts every register that its frame referred to behind
/// the registers that were free: the pool grows by exactly that many, and
/// what was free stays in front, in order.
pub proof fn lemma_leave_returns_registers(scopes: ScopesModel)
    requires
        scopes.leave().1 is Ok,
    ensures
        scopes.leave().0.free.len() == scopes.free.len()
            + scopes.frames.last().used_registers().len(),
        scopes.leave().0.free.len() >= scopes.free.len(),
        scopes.frames.last().used_registers().len() > 0 ==> scopes.leave().0.free.len()
            > scopes.free.len(),
        scopes.leave().0.free.take(scopes.free.len() as int) == scopes.free,
        scopes.leave().0.free.skip(scopes.free.len() as int)
            == scopes.frames.last().used_registers(),
        scopes.leave().0.frames == enclosing(scopes),
        scopes.wf() ==> scopes.leave().0.wf(),
{
    let after = scopes.leave().0;
    assert(after.free.take(scopes.free.len() as int) =~= scopes.free);
    assert(after.free.skip(scopes.free.len() as int) =~= scopes.frames.last().used_registers());
    if scopes.wf() {
        assert forall|i: int| 0 <= i < after.frames.len() implies (
        #[trigger] after.frames[i]).wf() by {
            assert(scopes.frames[i].wf());
        }
    }
}

/// The registers that leaving a scope gives back include those of the
/// bindings that the scope took over from the enclosing one: a register that
/// the enclosing scope still binds becomes free again.
pub proof fn lemma_leave_frees_inherited_registers(scopes: ScopesModel, at: int)
    requires
        scopes.frames.len() > 0,
        0 <= at < scopes.frames.last().bindings.len(),
    ensures
        scopes.enter().0.leave().0.free.contains(scopes.frames.last().bindings[at].register),
{
    let entered = scopes.enter().0;
    let after = entered.leave().0;
    let returned = entered.frames.last().used_registers();
    assert(returned[at] == scopes.frames.last().bindings[at].register);
    assert(after.free[scopes.free.len() + at] == returned[at]);
}

/// Leaving a scope keeps the pool disjoint from the frames where the scope
/// refers to no register twice and shares none with the scopes that stay.
/// A scope that was entered from one with declarations shares their
/// registers, so for it this does not hold.
pub proof fn lemma_leave_keeps_pool(scopes: ScopesModel)
    requires
        scopes.leave().1 is Ok,
        scopes.pool_is_disjoint(),
        scopes.frames.last().used_registers().no_duplicates(),
        forall|i: int, k: int|
            0 <= i < scopes.frames.last().used_registers().len() && 0 <= k < scopes.frames.len()
                - 1 ==> !(#[trigger] scopes.frames[k]).uses(
                #[trigger] scopes.frames.last().used_registers()[i],
            ),
    ensures
        scopes.leave().0.pool_is_disjoint(),
{
    let after = scopes.leave().0;
    let top = scopes.frames.last();
    let returned = top.used_registers();
    let kept = scopes.free.len() as int;
    assert forall|i: int| 0 <= i < after.free.len() implies !after.uses(
        #[trigger] after.free[i],
    ) by {
        let x = after.free[i];
        if after.uses(x) {
            let k = choose|k: int|
                0 <= k < after.frames.len() && (#[trigger] after.frames[k]).uses(x);
            assert(after.frames[k] == scopes.frames[k]);
            if i < kept {
                assert(!scopes.uses(scopes.free[i]));
            } else {
                assert(returned[i - kept] == x);
            }
        }
    }
    assert forall|i: int, j: int|
        0 <= i < after.free.len() && 0 <= j < after.free.len() && i != j implies after.free[i]
        != after.free[j] by {
        if i < kept && j < kept {
        } else if i >= kept && j >= kept {
            assert(returned[i - kept] != returned[j - kept]);
        } else {
            let low = if i < kept { i } else { j };
            let high = if i < kept { j } else { i };
            assert(!scopes.uses(scopes.free[low]));
            assert(top.uses(returned[high - kept]));
            assert(scopes.frames[scopes.frames.len() - 1].uses(returned[high - kept]));
        }
    }
}

/// Whether `register` is out of reach of the allocator: it is not free, and
/// no frame refers to it.
pub open spec fn is_apart(scopes: ScopesModel, register: Register) -> bool {
    !scopes.free.contains(register) && !scopes.uses(register)
}

/// A register that is out of reach of the allocator stays out of reach,
/// whatever is done to the scopes, and is never handed out.
pub proof fn lemma_apart_stays_apart(scopes: ScopesModel, name: Seq<char>, register: Register)
    requires
        is_apart(scopes, register),
    ensures
        is_apart(scopes.take_front().0, register),
        is_apart(scopes.take_back().0, register),
        is_apart(scopes.add_decl(name).0, register),
        is_apart(scopes.enter().0, register),
        is_apart(scopes.leave().0, register),
        scopes.take_front().1 != Ok::<Register, CompilerErrorView>(register),
        scopes.take_back().1 != Ok::<Register, CompilerErrorView>(register),
        scopes.add_decl(name).1 != Ok::<Register, CompilerErrorView>(register),
        scopes.throwaway() != Ok::<Register, CompilerErrorView>(register),
{
    let depth = scopes.frames.len() as int;
    let free = scopes.free;
    if free.len() > 0 {
        assert(free[0] != register);
        assert(free[free.len() - 1] != register);
        let front = scopes.take_front().0;
        if front.free.contains(register) {
            let i = choose|i: int| 0 <= i < front.free.len() && front.free[i] == register;
            assert(free[i + 1] == register);
        }
        if front.uses(register) {
            let k = choose|k: int|
                0 <= k < front.frames.len() && (#[trigger] front.frames[k]).uses(register);
            assert(scopes.frames[k].uses(register));
        }
        let back = scopes.take_back().0;
        if back.free.contains(register) {
            let i = choose|i: int| 0 <= i < back.free.len() && back.free[i] == register;
            assert(free[i] == register);
        }
        if back.uses(register) {
            let k = choose|k: int|
                0 <= k < back.frames.len() && (#[trigger] back.frames[k]).uses(register);
            assert(scopes.frames[k].uses(register));
        }
        let declared = scopes.add_decl(name).0;
        assert(declared.free == front.free);
        if depth > 0 && declared.uses(register) {
            let k = choose|k: int|
                0 <= k < declared.frames.len() && (#[trigger] declared.frames[k]).uses(register);
            if k == depth - 1 {
                lemma_bind_uses(scopes.frames[k], name, free[0], register);
            }
            assert(scopes.frames[k].uses(register));
        }
    }
    if depth > 0 {
        let top = scopes.frames[depth - 1];
        let entered = scopes.enter().0;
        if entered.uses(register) {
            let k = choose|k: int|
                0 <= k < entered.frames.len() && (#[trigger] entered.frames[k]).uses(register);
            if k == depth {
                let j = choose|j: int|
                    0 <= j < entered.frames[k].used_registers().len()
                        && entered.frames[k].used_registers()[j] == register;
                assert(top.used_registers()[top.temporaries.len() + j] == register);
                assert(top.uses(register));
            } else {
                assert(scopes.frames[k].uses(register));
            }
        }
        let left = scopes.leave().0;
        if left.free.contains(register) {
            let i = choose|i: int| 0 <= i < left.free.len() && left.free[i] == register;
            if i < free.len() {
                assert(free[i] == register);
            } else {
                assert(top.used_registers()[i - free.len()] == register);
                assert(top.uses(register));
            }
        }
        if left.uses(register) {
            let k = choose|k: int|
                0 <= k < left.frames.len() && (#[trigger] left.frames[k]).uses(register);
            assert(scopes.frames[k].uses(register));
        }
    }
}

} // verus!
