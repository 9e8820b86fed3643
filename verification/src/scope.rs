//! Lexical scopes and the register pool.
//!
//! One [`Scopes`] value serves one compilation. It owns the queue of free
//! registers and a stack of [`Scope`] frames. A frame maps names to registers;
//! entering a scope copies the enclosing frame, so a frame never refers to
//! its parent.

use std::collections::VecDeque;
use vstd::prelude::*;
use crate::error::{CompilerError, CompilerErrorView};

verus! {

/// A storage slot of the virtual machine.
pub type Register = u8;

/// The number of registers that a fresh pool holds: `0` up to, and not
/// including, the largest value of a [`Register`].
pub const REGISTER_COUNT: usize = 255;

/// A named binding: the register that holds the value of a name.
#[derive(Debug, Clone, Copy, PartialEq, Eq)]
pub struct Declaration {
    pub register: Register,
}

/// A name together with its register, as a mathematical value.
pub struct Binding {
    pub name: Seq<char>,
    pub register: Register,
}

/// The mathematical value of a [`Scope`].
///
/// The bindings are kept in the order in which their names were first
/// declared.
pub struct ScopeModel {
    pub bindings: Seq<Binding>,
    pub temporaries: Seq<Register>,
}

/// The position of the first binding of `name` at or after `from`, or the
/// number of bindings if there is none.
pub open spec fn position_from(bindings: Seq<Binding>, name: Seq<char>, from: int) -> int
    decreases bindings.len() - from,
{
    if from < 0 || from >= bindings.len() {
        bindings.len() as int
    } else if bindings[from].name == name {
        from
    } else {
        position_from(bindings, name, from + 1)
    }
}

impl ScopeModel {
    /// A scope without bindings or temporaries.
    pub open spec fn empty() -> ScopeModel {
        ScopeModel { bindings: Seq::empty(), temporaries: Seq::empty() }
    }

    /// No name is bound twice.
    pub open spec fn wf(self) -> bool {
        forall|i: int, j: int|
            0 <= i < j < self.bindings.len() ==> self.bindings[i].name != self.bindings[j].name
    }

    /// The position of the binding of `name`, or the number of bindings if
    /// the name is not bound.
    pub open spec fn position(self, name: Seq<char>) -> int {
        position_from(self.bindings, name, 0)
    }

    /// The register bound to `name`, if any.
    pub open spec fn lookup(self, name: Seq<char>) -> Option<Register> {
        let at = self.position(name);
        if at < self.bindings.len() {
            Some(self.bindings[at].register)
        } else {
            None
        }
    }

    /// The scope after `name` has been bound to `register`: an existing
    /// binding of the name is replaced where it stands, a new one is added
    /// at the end.
    pub open spec fn bind(self, name: Seq<char>, register: Register) -> ScopeModel {
        let at = self.position(name);
        let binding = Binding { name, register };
        if at < self.bindings.len() {
            ScopeModel { bindings: self.bindings.update(at, binding), ..self }
        } else {
            ScopeModel { bindings: self.bindings.push(binding), ..self }
        }
    }

    /// The registers of the bindings, in the order of the bindings.
    pub open spec fn bound_registers(self) -> Seq<Register> {
        self.bindings.map_values(|b: Binding| b.register)
    }

    /// Every register that the scope refers to: the temporaries first, then
    /// the registers of the bindings.
    pub open spec fn used_registers(self) -> Seq<Register> {
        self.temporaries + self.bound_registers()
    }

    /// The scope that is entered from this one: all bindings, no temporaries.
    pub open spec fn snapshot(self) -> ScopeModel {
        ScopeModel { bindings: self.bindings, temporaries: Seq::empty() }
    }

    /// Whether the scope refers to `register`.
    pub open spec fn uses(self, register: Register) -> bool {
        self.used_registers().contains(register)
    }
}

/// What [`position_from`] finds: an index between `from` and the number of
/// bindings; if it is an index of a binding, that binding has the name; and no
/// binding between `from` and it has the name.
pub proof fn lemma_position_from(bindings: Seq<Binding>, name: Seq<char>, from: int)
    requires
        0 <= from <= bindings.len(),
    ensures
        from <= position_from(bindings, name, from) <= bindings.len(),
        position_from(bindings, name, from) < bindings.len() ==> bindings[position_from(
            bindings,
            name,
            from,
        )].name == name,
        forall|j: int|
            from <= j < position_from(bindings, name, from) ==> bindings[j].name != name,
    decreases bindings.len() - from,
{
    if from < bindings.len() && bindings[from].name != name {
        lemma_position_from(bindings, name, from + 1);
    }
}

/// In a scope that binds no name twice, the position of the name of a binding
/// is the position of that binding.
pub proof fn lemma_position_of_binding(scope: ScopeModel, at: int)
    requires
        scope.wf(),
        0 <= at < scope.bindings.len(),
    ensures
        scope.position(scope.bindings[at].name) == at,
{
    lemma_position_from(scope.bindings, scope.bindings[at].name, 0);
}

/// Binding a name keeps a scope free of double bindings, makes the name
/// resolve to the new register, and leaves every other name as it was.
pub proof fn lemma_bind(scope: ScopeModel, name: Seq<char>, register: Register)
    ensures
        scope.wf() ==> scope.bind(name, register).wf(),
        scope.bind(name, register).lookup(name) == Some(register),
        forall|other: Seq<char>|
            other != name ==> scope.bind(name, register).lookup(other) == scope.lookup(other),
        scope.bind(name, register).temporaries == scope.temporaries,
{
    let after = scope.bind(name, register);
    let at = scope.position(name);
    lemma_position_from(scope.bindings, name, 0);
    lemma_position_from(after.bindings, name, 0);
    let found = after.position(name);
    assert(after.bindings[at].name == name);
    if found < at {
        assert(scope.bindings[found].name == name);
    }
    assert(found == at);
    assert forall|other: Seq<char>| other != name implies after.lookup(other) == scope.lookup(
        other,
    ) by {
        lemma_position_from(scope.bindings, other, 0);
        lemma_position_from(after.bindings, other, 0);
        let before_at = scope.position(other);
        let after_at = after.position(other);
        if before_at < scope.bindings.len() {
            assert(after.bindings[before_at].name == other);
        }
        if after_at < after.bindings.len() {
            if after_at < scope.bindings.len() {
                assert(scope.bindings[after_at].name == other);
            }
        }
    }
}

/// The mathematical value of a [`Scopes`]: the frames from the outermost to
/// the current one, and the free registers in the order in which they will be
/// handed out.
pub struct ScopesModel {
    pub frames: Seq<ScopeModel>,
    pub free: Seq<Register>,
}

impl ScopesModel {
    /// The state in which a compilation starts: one empty frame, and the
    /// registers from 0 on free, in rising order, [`REGISTER_COUNT`] of them.
    pub open spec fn fresh() -> ScopesModel {
        ScopesModel {
            frames: seq![ScopeModel::empty()],
            free: Seq::new(REGISTER_COUNT as nat, |i: int| i as Register),
        }
    }

    /// No frame binds a name twice.
    pub open spec fn wf(self) -> bool {
        forall|i: int| 0 <= i < self.frames.len() ==> (#[trigger] self.frames[i]).wf()
    }

    /// Takes the register at the front of the free queue.
    pub open spec fn take_front(self) -> (ScopesModel, Result<Register, CompilerErrorView>) {
        if self.free.len() == 0 {
            (self, Err(CompilerErrorView::RegistersExhausted))
        } else {
            (ScopesModel { free: self.free.drop_first(), ..self }, Ok(self.free.first()))
        }
    }

    /// Takes the register at the back of the free queue.
    pub open spec fn take_back(self) -> (ScopesModel, Result<Register, CompilerErrorView>) {
        if self.free.len() == 0 {
            (self, Err(CompilerErrorView::RegistersExhausted))
        } else {
            (ScopesModel { free: self.free.drop_last(), ..self }, Ok(self.free.last()))
        }
    }

    /// The register at the front of the free queue, which stays there.
    pub open spec fn throwaway(self) -> Result<Register, CompilerErrorView> {
        if self.free.len() == 0 {
            Err(CompilerErrorView::RegistersExhausted)
        } else {
            Ok(self.free.first())
        }
    }

    /// Takes the next free register and binds `name` to it in the current
    /// frame. The register is taken before the frame is looked for, so it
    /// is gone from the queue even where there is no frame.
    pub open spec fn add_decl(self, name: Seq<char>) -> (
        ScopesModel,
        Result<Register, CompilerErrorView>,
    ) {
        let (taken, register) = self.take_front();
        match register {
            Err(error) => (taken, Err(error)),
            Ok(register) => if taken.frames.len() == 0 {
                (taken, Err(CompilerErrorView::NoCurrentScope))
            } else {
                (
                    ScopesModel {
                        frames: taken.frames.drop_last().push(
                            taken.frames.last().bind(name, register),
                        ),
                        ..taken
                    },
                    Ok(register),
                )
            },
        }
    }

    /// The register that the current frame binds to `name`.
    pub open spec fn get_var(self, name: Seq<char>) -> Result<Register, CompilerErrorView> {
        if self.frames.len() == 0 {
            Err(CompilerErrorView::NoCurrentScope)
        } else {
            match self.frames.last().lookup(name) {
                Some(register) => Ok(register),
                None => Err(CompilerErrorView::UndeclaredIdentifier(name)),
            }
        }
    }

    /// Pushes a copy of the current frame's bindings as the new current
    /// frame.
    pub open spec fn enter(self) -> (ScopesModel, Result<(), CompilerErrorView>) {
        if self.frames.len() == 0 {
            (self, Err(CompilerErrorView::NoCurrentScope))
        } else {
            (
                ScopesModel { frames: self.frames.push(self.frames.last().snapshot()), ..self },
                Ok(()),
            )
        }
    }

    /// Pops the current frame and puts every register that it refers to at
    /// the back of the free queue.
    pub open spec fn leave(self) -> (ScopesModel, Result<(), CompilerErrorView>) {
        if self.frames.len() == 0 {
            (self, Err(CompilerErrorView::NoScopeToLeave))
        } else {
            (
                ScopesModel {
                    frames: self.frames.drop_last(),
                    free: self.free + self.frames.last().used_registers(),
                },
                Ok(()),
            )
        }
    }

    /// Whether some frame refers to `register`.
    pub open spec fn uses(self, register: Register) -> bool {
        exists|i: int| 0 <= i < self.frames.len() && (#[trigger] self.frames[i]).uses(register)
    }

    /// No register is free twice, and no free register is referred to by a
    /// frame.
    pub open spec fn pool_is_disjoint(self) -> bool {
        &&& self.free.no_duplicates()
        &&& forall|i: int| 0 <= i < self.free.len() ==> !self.uses(#[trigger] self.free[i])
    }
}

/// The value of a result that carries no view of its own.
pub open spec fn outcome<T>(result: Result<T, CompilerError>) -> Result<T, CompilerErrorView> {
    match result {
        Ok(value) => Ok(value),
        Err(error) => Err(error@),
    }
}

/// The value of the result of a lookup.
pub open spec fn declared(result: Result<&Declaration, CompilerError>) -> Result<
    Register,
    CompilerErrorView,
> {
    match result {
        Ok(declaration) => Ok(declaration.register),
        Err(error) => Err(error@),
    }
}

/// A name and its declaration, as a scope stores them.
#[derive(Debug)]
struct Entry {
    name: String,
    declaration: Declaration,
}

impl View for Entry {
    type V = Binding;

    closed spec fn view(&self) -> Binding {
        Binding { name: self.name@, register: self.declaration.register }
    }
}

/// The bindings that a list of entries stands for.
spec fn bindings_of(entries: Seq<Entry>) -> Seq<Binding> {
    Seq::new(entries.len(), |i: int| entries[i]@)
}

/// A lexical binding frame.
#[derive(Debug)]
pub struct Scope {
    decls: Vec<Entry>,
    unnamed_reserved_registers: VecDeque<Register>,
}

impl View for Scope {
    type V = ScopeModel;

    closed spec fn view(&self) -> ScopeModel {
        ScopeModel {
            bindings: bindings_of(self.decls@),
            temporaries: self.unnamed_reserved_registers@,
        }
    }
}

impl Clone for Scope {
    fn clone(&self) -> (copy: Self)
        ensures
            copy@ == self@,
    {
        let mut decls: Vec<Entry> = Vec::new();
        let mut i: usize = 0;
        while i < self.decls.len()
            invariant
                i <= self.decls.len(),
                decls@.len() == i,
                bindings_of(decls@) == bindings_of(self.decls@).take(i as int),
            decreases self.decls.len() - i,
        {
            let entry = &self.decls[i];
            let ghost copied = bindings_of(decls@);
            decls.push(Entry { name: entry.name.clone(), declaration: entry.declaration });
            assert(decls@[i as int]@ == self.decls@[i as int]@);
            assert forall|k: int| 0 <= k < i implies bindings_of(decls@)[k] == bindings_of(
                self.decls@,
            )[k] by {
                assert(bindings_of(decls@)[k] == copied[k]);
            }
            assert(bindings_of(decls@) =~= bindings_of(self.decls@).take(i + 1));
            i += 1;
        }
        let mut temporaries: VecDeque<Register> = VecDeque::new();
        let mut j: usize = 0;
        while j < self.unnamed_reserved_registers.len()
            invariant
                j <= self.unnamed_reserved_registers.len(),
                temporaries@ == self.unnamed_reserved_registers@.take(j as int),
            decreases self.unnamed_reserved_registers.len() - j,
        {
            temporaries.push_back(self.unnamed_reserved_registers[j]);
            assert(temporaries@ =~= self.unnamed_reserved_registers@.take(j + 1));
            j += 1;
        }
        assert(bindings_of(decls@) =~= bindings_of(self.decls@));
        assert(temporaries@ =~= self.unnamed_reserved_registers@);
        Scope { decls, unnamed_reserved_registers: temporaries }
    }
}

impl Scope {
    /// A scope without bindings or temporaries.
    pub fn new() -> (scope: Self)
        ensures
            scope@ == ScopeModel::empty(),
            scope@.wf(),
    {
        let scope = Scope { decls: Vec::new(), unnamed_reserved_registers: VecDeque::new() };
        assert(scope@.bindings =~= Seq::empty());
        scope
    }

    /// The position of the binding of `name` among the stored entries.
    fn position(&self, name: &String) -> (at: usize)
        ensures
            at == self@.position(name@),
            at <= self.decls.len(),
            self.decls.len() == self@.bindings.len(),
    {
        let mut i: usize = 0;
        while i < self.decls.len()
            invariant
                i <= self.decls.len(),
                self.decls.len() == self@.bindings.len(),
                self@.position(name@) == position_from(self@.bindings, name@, i as int),
            decreases self.decls.len() - i,
        {
            if self.decls[i].name == *name {
                return i;
            }
            i += 1;
        }
        i
    }

    /// The declaration of `name`, if the scope binds it.
    pub fn get(&self, name: &str) -> (found: Option<&Declaration>)
        ensures
            match found {
                Some(declaration) => self@.lookup(name@) == Some(declaration.register),
                None => self@.lookup(name@) is None,
            },
    {
        let owned = name.to_owned();
        let at = self.position(&owned);
        if at < self.decls.len() {
            Some(&self.decls[at].declaration)
        } else {
            None
        }
    }

    /// Binds `name` to `declaration`. An earlier binding of the name is
    /// replaced; its register is not given back.
    pub fn insert(&mut self, name: String, declaration: Declaration)
        ensures
            final(self)@ == old(self)@.bind(name@, declaration.register),
            old(self)@.wf() ==> final(self)@.wf(),
    {
        proof {
            lemma_bind(self@, name@, declaration.register);
        }
        let at = self.position(&name);
        let entry = Entry { name, declaration };
        if at < self.decls.len() {
            self.decls.set(at, entry);
        } else {
            self.decls.push(entry);
        }
        assert(self@.bindings =~= old(self)@.bind(name@, declaration.register).bindings);
    }

    /// The registers that are reserved in this scope without a name, in the
    /// order in which they were reserved.
    pub fn unnamed_reserved_registers(&self) -> (registers: &VecDeque<Register>)
        ensures
            registers@ == self@.temporaries,
    {
        &self.unnamed_reserved_registers
    }

    /// Notes that `register` is reserved in this scope without a name.
    pub fn reserve_unnamed(&mut self, register: Register)
        ensures
            final(self)@ == (ScopeModel {
                temporaries: old(self)@.temporaries.push(register),
                ..old(self)@
            }),
            old(self)@.wf() ==> final(self)@.wf(),
    {
        self.unnamed_reserved_registers.push_back(register);
        assert(self@.bindings == old(self)@.bindings);
    }

    /// Every register that the scope refers to: the temporaries first, then
    /// the registers of the bindings in the order in which their names were
    /// first declared.
    pub fn used_registers(self) -> (registers: VecDeque<Register>)
        ensures
            registers@ == self@.used_registers(),
    {
        let ghost model = self@;
        let Scope { decls, unnamed_reserved_registers } = self;
        let mut registers = unnamed_reserved_registers;
        let mut i: usize = 0;
        while i < decls.len()
            invariant
                i <= decls.len(),
                model.bindings == bindings_of(decls@),
                registers@ == model.temporaries + model.bound_registers().take(i as int),
            decreases decls.len() - i,
        {
            registers.push_back(decls[i].declaration.register);
            assert(registers@ =~= model.temporaries + model.bound_registers().take(i + 1));
            i += 1;
        }
        assert(model.bound_registers().take(i as int) =~= model.bound_registers());
        registers
    }
}

/// The frames that a list of scopes stands for.
spec fn frames_of(scopes: Seq<Scope>) -> Seq<ScopeModel> {
    Seq::new(scopes.len(), |i: int| scopes[i]@)
}

/// The scoping state of one compilation: the stack of frames and the queue
/// of free registers.
#[derive(Debug)]
pub struct Scopes {
    scopes: Vec<Scope>,
    unused_register: VecDeque<Register>,
}

impl View for Scopes {
    type V = ScopesModel;

    closed spec fn view(&self) -> ScopesModel {
        ScopesModel {
            frames: frames_of(self.scopes@),
            free: self.unused_register@,
        }
    }
}

impl Clone for Scopes {
    fn clone(&self) -> (copy: Self)
        ensures
            copy@ == self@,
    {
        let mut scopes: Vec<Scope> = Vec::new();
        let mut i: usize = 0;
        while i < self.scopes.len()
            invariant
                i <= self.scopes.len(),
                scopes.len() == i,
                forall|k: int| 0 <= k < i ==> scopes[k]@ == self.scopes[k]@,
            decreases self.scopes.len() - i,
        {
            scopes.push(self.scopes[i].clone());
            i += 1;
        }
        let mut unused: VecDeque<Register> = VecDeque::new();
        let mut j: usize = 0;
        while j < self.unused_register.len()
            invariant
                j <= self.unused_register.len(),
                unused@ == self.unused_register@.take(j as int),
            decreases self.unused_register.len() - j,
        {
            unused.push_back(self.unused_register[j]);
            assert(unused@ =~= self.unused_register@.take(j + 1));
            j += 1;
        }
        assert(unused@ =~= self.unused_register@);
        assert(frames_of(scopes@) =~= frames_of(self.scopes@));
        Scopes { scopes, unused_register: unused }
    }
}

impl Scopes {
    /// The state in which a compilation starts.
    pub fn new() -> (scopes: Scopes)
        ensures
            scopes@ == ScopesModel::fresh(),
            scopes@.wf(),
    {
        let mut unused: VecDeque<Register> = VecDeque::new();
        let mut next: Register = 0;
        while next < Register::MAX
            invariant
                unused@ == Seq::new(next as nat, |i: int| i as Register),
            decreases Register::MAX - next,
        {
            unused.push_back(next);
            assert(unused@ =~= Seq::new((next + 1) as nat, |i: int| i as Register));
            next += 1;
        }
        let mut frames: Vec<Scope> = Vec::new();
        frames.push(Scope::new());
        let scopes = Scopes { scopes: frames, unused_register: unused };
        assert(scopes@.frames =~= seq![ScopeModel::empty()]);
        scopes
    }

    /// Allocates the next free register and binds `decl` to it in the
    /// current scope.
    pub fn add_decl(&mut self, decl: String) -> (result: Result<Register, CompilerError>)
        ensures
            (final(self)@, outcome(result)) == old(self)@.add_decl(decl@),
            old(self)@.wf() ==> final(self)@.wf(),
    {
        let unused_reg = self.get_unused_register()?;
        self.current_scope_mut()?.insert(decl, Declaration { register: unused_reg });
        Ok(unused_reg)
    }

    /// Allocates the next free register without binding a name to it.
    pub fn reserve_register(&mut self) -> (result: Result<Register, CompilerError>)
        ensures
            (final(self)@, outcome(result)) == old(self)@.take_front(),
            old(self)@.wf() ==> final(self)@.wf(),
    {
        self.get_unused_register()
    }

    /// Allocates the free register that would be handed out last.
    pub fn reserve_register_back(&mut self) -> (result: Result<Register, CompilerError>)
        ensures
            (final(self)@, outcome(result)) == old(self)@.take_back(),
            old(self)@.wf() ==> final(self)@.wf(),
    {
        match self.unused_register.pop_back() {
            Some(register) => {
                assert(self@.free =~= old(self)@.free.drop_last());
                Ok(register)
            },
            None => Err(CompilerError::RegistersExhausted),
        }
    }

    /// The register that the next allocation will hand out. It stays free:
    /// a value put there is overwritten by whatever is allocated next.
    pub fn get_throwaway_register(&self) -> (result: Result<&Register, CompilerError>)
        ensures
            match result {
                Ok(register) => Ok::<Register, CompilerErrorView>(*register),
                Err(error) => Err(error@),
            } == self@.throwaway(),
    {
        if self.unused_register.len() > 0 {
            Ok(&self.unused_register[0])
        } else {
            Err(CompilerError::RegistersExhausted)
        }
    }

    /// The declaration of `var_name` in the current scope.
    pub fn get_var(&self, var_name: &str) -> (result: Result<&Declaration, CompilerError>)
        ensures
            declared(result) == self@.get_var(var_name@),
    {
        let scope = self.current_scope()?;
        match scope.get(var_name) {
            Some(declaration) => Ok(declaration),
            None => Err(CompilerError::UndeclaredIdentifier(var_name.to_owned())),
        }
    }

    /// Pushes a new scope that starts with a copy of the current scope's
    /// declarations and with no temporaries.
    pub fn enter_new_scope(&mut self) -> (result: Result<(), CompilerError>)
        ensures
            (final(self)@, outcome(result)) == old(self)@.enter(),
            old(self)@.wf() ==> final(self)@.wf(),
    {
        let copy = self.current_scope()?.clone();
        let entered = Scope { decls: copy.decls, unnamed_reserved_registers: VecDeque::new() };
        assert(entered@ == old(self)@.frames.last().snapshot());
        self.scopes.push(entered);
        assert(self@.frames =~= old(self)@.frames.push(old(self)@.frames.last().snapshot()));
        Ok(())
    }

    /// The current scope.
    pub fn current_scope(&self) -> (result: Result<&Scope, CompilerError>)
        ensures
            match result {
                Ok(scope) => self@.frames.len() > 0 && scope@ == self@.frames.last(),
                Err(error) => self@.frames.len() == 0 && error@
                    == CompilerErrorView::NoCurrentScope,
            },
    {
        let depth = self.scopes.len();
        if depth > 0 {
            Ok(&self.scopes[depth - 1])
        } else {
            Err(CompilerError::NoCurrentScope)
        }
    }

    /// The current scope, to be changed in place.
    fn current_scope_mut(&mut self) -> (result: Result<&mut Scope, CompilerError>)
        ensures
            match result {
                Ok(scope) => {
                    &&& old(self)@.frames.len() > 0
                    &&& scope@ == old(self)@.frames.last()
                    &&& final(self)@ == (ScopesModel {
                        frames: old(self)@.frames.drop_last().push(final(scope)@),
                        ..old(self)@
                    })
                },
                Err(error) => {
                    &&& old(self)@.frames.len() == 0
                    &&& error@ == CompilerErrorView::NoCurrentScope
                    &&& final(self)@ == old(self)@
                },
            },
    {
        let depth = self.scopes.len();
        if depth > 0 {
            let scope = &mut self.scopes[depth - 1];
            assert(frames_of(old(self).scopes@.update(depth - 1, *final(scope)))
                =~= old(self)@.frames.drop_last().push(final(scope)@));
            Ok(scope)
        } else {
            Err(CompilerError::NoCurrentScope)
        }
    }

    /// Pops the current scope and gives every register that it refers to
    /// back to the free queue, behind the registers that are already there.
    /// That includes the registers of the declarations that the scope took
    /// over when it was entered, which the enclosing scope still binds.
    pub fn leave_current_scope(&mut self) -> (result: Result<(), CompilerError>)
        ensures
            (final(self)@, outcome(result)) == old(self)@.leave(),
            old(self)@.wf() ==> final(self)@.wf(),
    {
        match self.scopes.pop() {
            None => {
                assert(self@.frames =~= old(self)@.frames);
                Err(CompilerError::NoScopeToLeave)
            },
            Some(scope) => {
                let mut used = scope.used_registers();
                self.unused_register.append(&mut used);
                assert(self@.frames =~= old(self)@.frames.drop_last());
                Ok(())
            },
        }
    }

    /// Takes the register at the front of the free queue.
    fn get_unused_register(&mut self) -> (result: Result<Register, CompilerError>)
        ensures
            (final(self)@, outcome(result)) == old(self)@.take_front(),
            old(self)@.wf() ==> final(self)@.wf(),
    {
        match self.unused_register.pop_front() {
            Some(register) => {
                assert(self@.free =~= old(self)@.free.drop_first());
                Ok(register)
            },
            None => Err(CompilerError::RegistersExhausted),
        }
    }
}

} // verus!
