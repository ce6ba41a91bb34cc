use amaru::uplc::arena::Arena;
use amaru::uplc::context::Context;
use amaru::uplc::cost_map::CostMap;
use amaru::uplc::encode_error::FlatEncodeError;
use amaru::uplc::env::Env;
use amaru::uplc::ex_budget::ExBudget;
use amaru::uplc::machine_costs::MachineCosts;
use amaru::uplc::state::MachineState;
use amaru::uplc::syn::typ::parser;
use amaru::uplc::typ::Type;
use amaru::uplc::zigzag::ZigZag;

#[test]
fn zigzag_interleaves_signs() {
    assert_eq!((&0i128).zigzag(), 0);
    assert_eq!((&-1i128).zigzag(), 1);
    assert_eq!((&1i128).zigzag(), 2);
    assert_eq!((&-2i128).zigzag(), 3);
    assert_eq!((&2i128).zigzag(), 4);
    assert_eq!((&0i128).unzigzag(), 0);
    assert_eq!((&1i128).unzigzag(), -1);
    assert_eq!((&4i128).unzigzag(), 2);
    for n in [-1000i128, -3, 0, 7, 123456789, i64::MAX as i128, i64::MIN as i128] {
        assert_eq!((&(&n).zigzag()).unzigzag(), n);
    }
}

#[test]
fn budgets_of_the_machine_steps() {
    assert_eq!(ExBudget::default(), ExBudget::new(14_000_000, 10_000_000_000));
    assert_eq!(ExBudget::max(), ExBudget::new(14_000_000_000_000, 10_000_000_000_000_000));
    assert_eq!(ExBudget::start_up(), ExBudget::new(100, 100));
    for step in [
        ExBudget::var(),
        ExBudget::constant(),
        ExBudget::lambda(),
        ExBudget::delay(),
        ExBudget::force(),
        ExBudget::apply(),
        ExBudget::builtin(),
        ExBudget::constr(),
        ExBudget::case(),
    ] {
        assert_eq!(step, ExBudget::new(100, 16000));
    }
    let mut b = ExBudget::var();
    b.occurrences(3);
    assert_eq!(b, ExBudget::new(300, 48000));
    assert_eq!(ExBudget::machine() - b, ExBudget::new(13_999_700, 9_999_952_000));
}

#[test]
fn machine_costs_come_from_the_cost_map() {
    assert_eq!(MachineCosts::default().get(0), ExBudget::new(100, 16000));
    assert_eq!(MachineCosts::new().get(8), ExBudget::new(100, 16000));
    let names = ["const", "var", "lam", "apply", "delay", "force", "builtin", "constr", "case"];
    let mut entries = Vec::new();
    for (i, name) in names.iter().enumerate() {
        entries.push((format!("cek_{}_cost-exBudgetmem", name), 10 + i as i64));
        entries.push((format!("cek_{}_cost-exBudgetCPU", name), 1000 + i as i64));
    }
    entries.push(("cek_var_cost-exBudgetmem".to_string(), 999));
    let cost_map = CostMap { entries };
    assert_eq!(cost_map.get("cek_var_cost-exBudgetmem"), Some(11));
    assert_eq!(cost_map.get("nope"), None);
    let costs = MachineCosts::initialize_machine_costs(&cost_map);
    for i in 0..9 {
        assert_eq!(costs.get(i), ExBudget::new(10 + i as i64, 1000 + i as i64));
    }
}

#[test]
fn environments_are_looked_up_from_the_most_recent() {
    let arena = Arena::new();
    let a = arena.alloc_integer(10);
    let b = arena.alloc_integer(20);
    let env: &Env<i128> = Env::new_in(&arena);
    let env = env.push(&arena, a).push(&arena, b);
    assert_eq!(env.lookup(1), Some(&20));
    assert_eq!(env.lookup(2), Some(&10));
    assert_eq!(env.lookup(0), None);
    assert_eq!(env.lookup(3), None);
}

#[test]
fn arena_allocates_values_as_given() {
    let mut arena = Arena::default();
    assert_eq!(*arena.allocate(42u32), 42);
    assert_eq!(*arena.alloc_integer(-5), -5);
    arena.reset();
    assert_eq!(*arena.alloc_integer(7), 7);
}

#[test]
fn contexts_and_states_are_built_in_the_arena() {
    let arena = Arena::new();
    let no_frame: &Context<u8, i128> = Context::no_frame(&arena);
    assert!(matches!(no_frame, Context::NoFrame));
    let forced = Context::frame_force(&arena, no_frame);
    assert!(matches!(forced, Context::FrameForce(Context::NoFrame)));
    let term: &u8 = arena.allocate(3u8);
    let done: &MachineState<u8, i128> = MachineState::done(&arena, term);
    assert!(matches!(done, MachineState::Done(t) if **t == 3));
}

#[test]
fn types_parse_from_their_syntax() {
    let arena = Arena::new();
    let (t, end) = parser(&arena, b"integer", 0).unwrap();
    assert_eq!(*t, Type::Integer);
    assert_eq!(end, 7);
    let input = b" (list (pair bool bytestring)) rest";
    assert!(parser(&arena, input, 0).is_none());
    let (t, end) = parser(&arena, input, 1).unwrap();
    assert_eq!(*t, Type::List(&Type::Pair(&Type::Bool, &Type::ByteString)));
    assert_eq!(&input[end..], b" rest");
    let (t, _) = parser(&arena, b"(array data)", 0).unwrap();
    assert_eq!(*t, Type::Array(&Type::Data));
    assert!(parser(&arena, b"(list)", 0).is_none());
    assert!(parser(&arena, b"integers", 0).is_none());
    assert!(parser(&arena, b"(pair unit)", 0).is_none());
    assert_eq!(*Type::integer(&arena), Type::Integer);
    assert_eq!(*Type::list(&arena, Type::bool(&arena)), Type::List(&Type::Bool));
}

#[test]
fn flat_encode_errors_have_their_messages() {
    assert_eq!(
        FlatEncodeError::Overflow { byte: 255, num_bits: 4 }.message(),
        "Overflow detected, cannot fit 255 in 4 bits."
    );
    assert_eq!(FlatEncodeError::BufferNotByteAligned.message(), "Buffer is not byte aligned");
    assert_eq!(FlatEncodeError::BlsElementNotSupported.message(), "Cannot encode BLS12-381 constants");
    let cbor = minicbor::encode::Error::<std::convert::Infallible>::message("bad tag");
    assert_eq!(FlatEncodeError::from(cbor).message(), "bad tag");
}
