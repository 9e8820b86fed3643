use bytecode_compiler::error::CompilerError;
use bytecode_compiler::scope::{Declaration, Scope, Scopes};
use std::collections::VecDeque;

#[test]
fn test_scopes() {
    let mut scopes = Scopes::new();

    let r0 = scopes.add_decl("globalVar".into()).unwrap();

    scopes.enter_new_scope().unwrap();
    let r1 = scopes.add_decl("testVar".into()).unwrap();
    let r2 = scopes.add_decl("anotherVar".into()).unwrap();
    assert_ne!(r0, r1);
    assert_ne!(r1, r2);
    assert_eq!(scopes.get_var("testVar").unwrap().register, r1);
    assert_eq!(scopes.get_var("anotherVar").unwrap().register, r2);
    assert!(scopes.leave_current_scope().is_ok());

    assert_eq!(scopes.get_var("globalVar").unwrap().register, r0);
    assert!(scopes.get_var("testVar").is_err());
    assert!(scopes.get_var("anotherVar").is_err());

    assert!(scopes.leave_current_scope().is_ok());

    assert!(scopes.current_scope().is_err());
}

#[test]
fn fresh_pool_hands_out_registers_in_rising_order() {
    let mut scopes = Scopes::new();
    for expected in 0..255u16 {
        assert_eq!(*scopes.get_throwaway_register().unwrap(), expected as u8);
        assert_eq!(scopes.reserve_register().unwrap(), expected as u8);
    }
    assert_eq!(scopes.reserve_register(), Err(CompilerError::RegistersExhausted));
    assert_eq!(scopes.get_throwaway_register(), Err(CompilerError::RegistersExhausted));
    assert_eq!(scopes.add_decl("a".into()), Err(CompilerError::RegistersExhausted));
    assert_eq!(scopes.reserve_register_back(), Err(CompilerError::RegistersExhausted));
}

#[test]
fn throwaway_register_is_not_consumed() {
    let mut scopes = Scopes::new();
    assert_eq!(*scopes.get_throwaway_register().unwrap(), 0);
    assert_eq!(*scopes.get_throwaway_register().unwrap(), 0);
    assert_eq!(scopes.add_decl("a".into()).unwrap(), 0);
    assert_eq!(*scopes.get_throwaway_register().unwrap(), 1);
}

#[test]
fn registers_can_be_taken_from_the_back() {
    let mut scopes = Scopes::new();
    assert_eq!(scopes.reserve_register_back().unwrap(), 254);
    assert_eq!(scopes.reserve_register_back().unwrap(), 253);
    assert_eq!(scopes.reserve_register().unwrap(), 0);
}

#[test]
fn redeclaration_replaces_the_binding_and_keeps_its_place() {
    let mut scopes = Scopes::new();
    assert_eq!(scopes.add_decl("a".into()).unwrap(), 0);
    assert_eq!(scopes.add_decl("b".into()).unwrap(), 1);
    assert_eq!(scopes.add_decl("a".into()).unwrap(), 2);
    assert_eq!(scopes.get_var("a").unwrap().register, 2);
    assert_eq!(scopes.get_var("b").unwrap().register, 1);
    // The first register of `a` is not given back: the scope gives back 2 and 1.
    let used = scopes.current_scope().unwrap().clone().used_registers();
    assert_eq!(used, VecDeque::from(vec![2u8, 1]));
}

#[test]
fn lookup_sees_the_current_scope_only() {
    let mut scopes = Scopes::new();
    scopes.add_decl("outer".into()).unwrap();
    scopes.enter_new_scope().unwrap();
    scopes.add_decl("outer".into()).unwrap();
    scopes.add_decl("inner".into()).unwrap();
    assert_eq!(scopes.get_var("outer").unwrap().register, 1);
    assert_eq!(scopes.get_var("inner").unwrap().register, 2);
    scopes.leave_current_scope().unwrap();
    // The change to `outer` in the inner scope did not reach the outer scope.
    assert_eq!(scopes.get_var("outer").unwrap().register, 0);
    assert_eq!(
        scopes.get_var("inner").unwrap_err(),
        CompilerError::UndeclaredIdentifier("inner".into())
    );
}

#[test]
fn leaving_a_scope_gives_back_inherited_registers_too() {
    let mut scopes = Scopes::new();
    for _ in 0..250 {
        scopes.reserve_register().unwrap();
    }
    assert_eq!(scopes.add_decl("kept".into()).unwrap(), 250);
    scopes.enter_new_scope().unwrap();
    assert_eq!(scopes.add_decl("local".into()).unwrap(), 251);
    scopes.leave_current_scope().unwrap();
    // Free now: 252, 253, 254, then what the scope referred to: 250 and 251.
    assert_eq!(scopes.reserve_register().unwrap(), 252);
    assert_eq!(scopes.reserve_register().unwrap(), 253);
    assert_eq!(scopes.reserve_register().unwrap(), 254);
    assert_eq!(scopes.reserve_register().unwrap(), 250);
    assert_eq!(scopes.reserve_register().unwrap(), 251);
    assert_eq!(scopes.reserve_register(), Err(CompilerError::RegistersExhausted));
    // The outer scope still binds `kept` to the register that was handed out again.
    assert_eq!(scopes.get_var("kept").unwrap().register, 250);
}

#[test]
fn without_a_scope_nothing_can_be_declared_looked_up_entered_or_left() {
    let mut scopes = Scopes::new();
    scopes.leave_current_scope().unwrap();
    assert_eq!(scopes.leave_current_scope(), Err(CompilerError::NoScopeToLeave));
    assert_eq!(scopes.enter_new_scope(), Err(CompilerError::NoCurrentScope));
    assert_eq!(scopes.get_var("a").unwrap_err(), CompilerError::NoCurrentScope);
    // The declaration takes its register before it looks for the scope.
    assert_eq!(*scopes.get_throwaway_register().unwrap(), 0);
    assert_eq!(scopes.add_decl("a".into()), Err(CompilerError::NoCurrentScope));
    assert_eq!(*scopes.get_throwaway_register().unwrap(), 1);
}

#[test]
fn scope_maps_names_to_declarations() {
    let mut scope = Scope::new();
    assert!(scope.get("a").is_none());
    scope.insert("a".into(), Declaration { register: 7 });
    scope.insert("b".into(), Declaration { register: 9 });
    scope.insert("a".into(), Declaration { register: 8 });
    assert_eq!(scope.get("a"), Some(&Declaration { register: 8 }));
    assert_eq!(scope.get("b"), Some(&Declaration { register: 9 }));
    assert!(scope.get("").is_none());
    let copy = scope.clone();
    assert_eq!(copy.get("a"), Some(&Declaration { register: 8 }));
    assert_eq!(scope.used_registers(), VecDeque::from(vec![8u8, 9]));
    assert_eq!(Scope::new().used_registers(), VecDeque::new());
}

#[test]
fn entering_then_leaving_restores_the_bindings() {
    let mut scopes = Scopes::new();
    let before = scopes.add_decl("before".into()).unwrap();
    scopes.enter_new_scope().unwrap();
    scopes.add_decl("inside".into()).unwrap();
    scopes.add_decl("before".into()).unwrap();
    scopes.leave_current_scope().unwrap();
    assert_eq!(scopes.get_var("before").unwrap().register, before);
    assert!(scopes.get_var("inside").is_err());
}

fn free_registers(scopes: &Scopes) -> usize {
    let mut copy = scopes.clone();
    let mut count = 0;
    while copy.reserve_register().is_ok() {
        count += 1;
    }
    count
}

#[test]
fn pool_shrinks_with_each_allocation_and_grows_when_a_scope_is_left() {
    let mut scopes = Scopes::new();
    assert_eq!(free_registers(&scopes), 255);
    scopes.add_decl("a".into()).unwrap();
    assert_eq!(free_registers(&scopes), 254);
    scopes.reserve_register().unwrap();
    assert_eq!(free_registers(&scopes), 253);
    scopes.get_throwaway_register().unwrap();
    assert_eq!(free_registers(&scopes), 253);
    scopes.enter_new_scope().unwrap();
    assert_eq!(free_registers(&scopes), 253);
    scopes.add_decl("b".into()).unwrap();
    assert_eq!(free_registers(&scopes), 252);
    // The scope refers to two registers: that of `a`, taken over, and that of `b`.
    scopes.leave_current_scope().unwrap();
    assert_eq!(free_registers(&scopes), 254);
    // The root scope refers to one.
    scopes.leave_current_scope().unwrap();
    assert_eq!(free_registers(&scopes), 255);
}

#[test]
fn temporaries_are_given_back_before_bindings() {
    let mut scope = Scope::new();
    scope.insert("a".into(), Declaration { register: 3 });
    scope.reserve_unnamed(9);
    scope.reserve_unnamed(8);
    assert_eq!(scope.unnamed_reserved_registers(), &VecDeque::from(vec![9u8, 8]));
    assert_eq!(scope.used_registers(), VecDeque::from(vec![9u8, 8, 3]));
}

#[test]
fn a_copy_of_the_scopes_goes_its_own_way() {
    let mut scopes = Scopes::new();
    scopes.add_decl("a".into()).unwrap();
    let mut copy = scopes.clone();
    assert_eq!(copy.add_decl("b".into()).unwrap(), 1);
    assert_eq!(copy.get_var("a").unwrap().register, 0);
    assert!(scopes.get_var("b").is_err());
    assert_eq!(scopes.add_decl("c".into()).unwrap(), 1);
}
