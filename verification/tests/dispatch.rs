use trampoline_gen::directive::LitToken;
use trampoline_gen::directive::ParseError;
use trampoline_gen::registry::trampoline_invoke;
use trampoline_gen::registry::DispatchOutcome;
use trampoline_gen::registry::ListenerRegistry;
use trampoline_gen::trampoline::expand_extern_fns;
use trampoline_gen::trampoline::generate_extern_fns;
use trampoline_gen::trampoline::get_extern_fn;
use trampoline_gen::trampoline::try_get_extern_fn;

#[test]
fn two_trampolines_and_their_dispatch() {
    // generate_extern_fns(2): entries extern_on_msg_wrapper_0 and _1,
    // index 1 resolves to _1, index 2 fails
    let fns = generate_extern_fns(&vec![LitToken::IntLit(2)]).unwrap();
    assert_eq!(fns.len(), 2);
    assert_eq!(fns[0].c_name, b"extern_on_msg_wrapper_0".to_vec());
    assert_eq!(fns[1].c_name, b"extern_on_msg_wrapper_1".to_vec());
    assert_eq!(fns[0].helper_name, b"on_msg_wrapper_0".to_vec());
    assert_eq!(fns[1].helper_name, b"on_msg_wrapper_1".to_vec());
    assert_eq!(fns[0].index, 0);
    assert_eq!(fns[1].index, 1);
    assert_eq!(get_extern_fn(&fns, 1).c_name, b"extern_on_msg_wrapper_1".to_vec());
    assert!(try_get_extern_fn(&fns, 2).is_none());
}

#[test]
fn dispatch_covers_exactly_the_generated_range() {
    let fns = expand_extern_fns(5);
    assert_eq!(fns.len(), 5);
    for i in 0..5 {
        let t = try_get_extern_fn(&fns, i).unwrap();
        assert_eq!(t.index, i);
    }
    assert!(try_get_extern_fn(&fns, 5).is_none());
    assert!(try_get_extern_fn(&fns, usize::MAX).is_none());
}

#[test]
fn zero_trampolines_dispatch_fails_on_every_input() {
    let fns = expand_extern_fns(0);
    assert_eq!(fns.len(), 0);
    for i in 0..10 {
        assert!(try_get_extern_fn(&fns, i).is_none());
    }
}

#[test]
fn trampoline_names_are_pairwise_distinct() {
    let fns = expand_extern_fns(12);
    for i in 0..12 {
        for j in 0..12 {
            if i != j {
                assert_ne!(fns[i].c_name, fns[j].c_name);
                assert_ne!(fns[i].helper_name, fns[j].helper_name);
            }
        }
    }
}

#[test]
fn malformed_count_directives_are_hard_errors() {
    assert_eq!(generate_extern_fns(&vec![]).unwrap_err(), ParseError::MissingLiteral);
    assert_eq!(
        generate_extern_fns(&vec![LitToken::StrLit(b"2".to_vec())]).unwrap_err(),
        ParseError::MalformedCount
    );
}

#[test]
fn registry_miss_schedules_nothing() {
    // a trampoline invoked for index 3 against an empty registry reports the
    // miss and returns; no handler invocation is scheduled, nothing is fatal
    let registry = ListenerRegistry::new();
    let outcome = trampoline_invoke(&registry, 3, 99);
    assert_eq!(outcome, DispatchOutcome::NoListener { index: 3 });
    assert!(!matches!(outcome, DispatchOutcome::Scheduled { .. }));
}

#[test]
fn registered_listener_is_scheduled_with_the_parameter() {
    let mut registry = ListenerRegistry::new();
    registry.register(0, 4001);
    registry.register(1, 4002);
    let outcome = trampoline_invoke(&registry, 1, 77);
    assert_eq!(outcome, DispatchOutcome::Scheduled { listener: 4002, param: 77 });
    // a re-registration of the same index shadows the earlier listener
    registry.register(1, 4003);
    let outcome = trampoline_invoke(&registry, 1, 77);
    assert_eq!(outcome, DispatchOutcome::Scheduled { listener: 4003, param: 77 });
    // other indices are untouched
    let outcome = trampoline_invoke(&registry, 0, 5);
    assert_eq!(outcome, DispatchOutcome::Scheduled { listener: 4001, param: 5 });
}
