use modbus_gateway::catalog::{BlockType, Interface, ModbusData, ModbusProtocol, RequestFunction,
    SlaveData, ValueType};
use modbus_gateway::error::ModbusError;
use modbus_gateway::executor::{BatchRun, Transaction, TransactionReply, prepare_item};
use modbus_gateway::gateway::{MethodKind, Reply, RequestBody, RequestOutcome, batch_reply,
    merge_group_results, method_kind, plan_paths, find_unknown_interface, screen_request};
use modbus_gateway::planner::TaskPlan;
use modbus_gateway::resolver::GetOrSet;
use modbus_gateway::session::{SessionPlan, session_plan};
use modbus_gateway::value::Scalar;

fn plc1() -> (String, Interface) {
    let hr = vec![(
        "flow".to_string(),
        ModbusData::new(10, BlockType::Hr, ValueType::F32, RequestFunction::Multiple),
    )];
    let co = vec![(
        "pump".to_string(),
        ModbusData::new(3, BlockType::Co, ValueType::Bool, RequestFunction::Single),
    )];
    let slave = SlaveData::new(7, co, vec![], hr, vec![]);
    (
        "plc1".to_string(),
        Interface::new(
            ModbusProtocol::Tcp,
            "127.0.0.1".to_string(),
            1502,
            vec![("s1".to_string(), slave)],
        ),
    )
}

#[test]
fn planner_groups_by_interface_in_first_seen_order() {
    let mut plan = TaskPlan::new();
    plan.push("/dev1/s1/t", None);
    plan.push("/dev1/s1/h", None);
    plan.push("/dev2/s2/x", None);
    let groups = plan.plan();
    assert_eq!(groups.len(), 2);
    assert_eq!(groups[0].0, "dev1");
    let dev1: Vec<(&str, &str)> = groups[0]
        .1
        .iter()
        .map(|i| (i.0.as_str(), i.1 .0.as_str()))
        .collect();
    assert_eq!(dev1, vec![("s1", "t"), ("s1", "h")]);
    assert_eq!(groups[1].0, "dev2");
    assert_eq!(groups[1].1.len(), 1);
    assert_eq!(groups[1].1[0].0, "s2");
    assert_eq!(groups[1].1[0].1 .0, "x");
}

#[test]
fn planner_drops_malformed_paths_silently() {
    let mut plan = TaskPlan::new();
    plan.push("bad", None);
    plan.push("/a/b", None);
    plan.push("/a/b/c/d", None);
    assert!(plan.plan().is_empty());
    plan.push("/a/b/c", None);
    assert_eq!(plan.plan().len(), 1);
}

#[test]
fn empty_get_runs_no_batches_and_replies_with_an_empty_table() {
    let catalog = vec![plc1()];
    match screen_request("GET", RequestBody::Paths(vec![]), &catalog) {
        RequestOutcome::RunBatches { plan, .. } => {
            assert!(plan.todo_list.is_empty());
            match batch_reply(GetOrSet::Read, &vec![]) {
                Reply::GetResult(merged) => assert!(merged.is_empty()),
                _ => panic!(),
            }
        },
        _ => panic!("an empty path list is not a malformed request"),
    }
}

#[test]
fn path_segments_may_be_empty() {
    let mut plan = TaskPlan::new();
    plan.push("//a/b", None);
    let groups = plan.plan();
    assert_eq!(groups.len(), 1);
    assert_eq!(groups[0].0, "");
    assert_eq!(groups[0].1[0].0, "a");
    assert_eq!(groups[0].1[0].1 .0, "b");
}

#[test]
fn method_names_match_case_insensitively() {
    assert_eq!(method_kind("TEST"), MethodKind::Test);
    assert_eq!(method_kind("test"), MethodKind::Test);
    assert_eq!(method_kind("GeT"), MethodKind::GetPoints);
    assert_eq!(method_kind("set"), MethodKind::SetPoints);
    assert_eq!(method_kind("PUT"), MethodKind::Unknown);
    assert_eq!(method_kind(""), MethodKind::Unknown);
}

#[test]
fn get_scenario_reads_a_float_point() {
    let catalog = vec![plc1()];
    let outcome = screen_request(
        "GET",
        RequestBody::Paths(vec!["/plc1/s1/flow".to_string()]),
        &catalog,
    );
    let (plan, get_or_set) = match outcome {
        RequestOutcome::RunBatches { plan, get_or_set } => (plan, get_or_set),
        _ => panic!("a known interface must run batches"),
    };
    assert_eq!(get_or_set, GetOrSet::Read);
    assert_eq!(plan.todo_list.len(), 1);
    assert_eq!(plan.todo_list[0].0, "plc1");

    let interface = &catalog[0].1;
    let mut run = BatchRun::new(plan.todo_list[0].1.clone(), GetOrSet::Read);
    let (unit, txn) = run.next_transaction(interface).unwrap();
    assert_eq!(unit, 7);
    assert!(matches!(
        txn,
        Transaction::ReadHoldingRegisters { address: 10, count: 2 }
    ));
    run.deliver(TransactionReply::Words(vec![0x4048, 0x0000]));
    assert!(run.next_transaction(interface).is_none());
    let results = run.into_result().unwrap();
    assert_eq!(results.len(), 1);
    assert_eq!(results[0].0, "flow");
    match results[0].1 {
        Scalar::Float(bits) => assert_eq!(f32::from_bits(bits), 3.125),
        ref other => panic!("expected a float, got {:?}", other),
    }

    let merged = merge_group_results(&vec![Ok(results)]);
    assert_eq!(merged.len(), 1);
    assert_eq!(merged[0].0, "flow");
}

#[test]
fn set_scenario_issues_exactly_one_single_coil_write() {
    let catalog = vec![plc1()];
    let outcome = screen_request(
        "SET",
        RequestBody::Entries(vec![("/plc1/s1/pump".to_string(), Scalar::Bool(true))]),
        &catalog,
    );
    let (plan, get_or_set) = match outcome {
        RequestOutcome::RunBatches { plan, get_or_set } => (plan, get_or_set),
        _ => panic!("a known interface must run batches"),
    };
    assert_eq!(get_or_set, GetOrSet::Write);

    let interface = &catalog[0].1;
    let mut run = BatchRun::new(plan.todo_list[0].1.clone(), GetOrSet::Write);
    let mut transactions = Vec::new();
    while let Some((unit, txn)) = run.next_transaction(interface) {
        assert_eq!(unit, 7);
        transactions.push(txn);
        run.deliver(TransactionReply::WriteAck);
    }
    assert_eq!(transactions.len(), 1, "exactly one wire transaction");
    assert!(matches!(
        transactions[0],
        Transaction::WriteSingleCoil { address: 3, value: true }
    ));
    let results = run.into_result().unwrap();
    assert!(results.is_empty(), "a write contributes no read results");
    assert!(matches!(
        batch_reply(GetOrSet::Write, &vec![Ok(results)]),
        Reply::SetDone
    ));
}

#[test]
fn float_write_carries_the_encoded_word_pair() {
    let catalog = vec![plc1()];
    let interface = &catalog[0].1;
    let bits = 3.125f32.to_bits();
    let items = vec![(
        "s1".to_string(),
        ("flow".to_string(), Some(Scalar::Float(bits))),
    )];
    let mut run = BatchRun::new(items, GetOrSet::Write);
    let (_, txn) = run.next_transaction(interface).unwrap();
    match txn {
        Transaction::WriteMultipleRegisters { address, word_hi, word_lo, count } => {
            assert_eq!(address, 10);
            assert_eq!(count, 2);
            assert_eq!(word_hi, 0x4048);
            assert_eq!(word_lo, 0x0000);
        },
        other => panic!("expected a multiple-register write, got {:?}", other),
    }
}

#[test]
fn unknown_interface_rejects_the_whole_request() {
    let catalog = vec![plc1()];
    let outcome = screen_request(
        "GET",
        RequestBody::Paths(vec![
            "/plc1/s1/flow".to_string(),
            "/ghost/s1/x".to_string(),
        ]),
        &catalog,
    );
    match outcome {
        RequestOutcome::Immediate(Reply::Rejected(code)) => assert_eq!(code, "INVAILED GET"),
        _ => panic!("an unknown interface must reject the request"),
    }
    let plan = plan_paths(&vec!["/ghost/s1/x".to_string()]);
    assert_eq!(find_unknown_interface(&plan, &catalog).unwrap(), "ghost");
}

#[test]
fn wrong_body_shapes_reject() {
    let catalog = vec![plc1()];
    match screen_request("GET", RequestBody::Malformed, &catalog) {
        RequestOutcome::Immediate(Reply::Rejected(code)) => assert_eq!(code, "INVAILED GET"),
        _ => panic!(),
    }
    match screen_request("SET", RequestBody::Text("x".to_string()), &catalog) {
        RequestOutcome::Immediate(Reply::Rejected(code)) => assert_eq!(code, "INVAILED SET"),
        _ => panic!(),
    }
    match screen_request("PING", RequestBody::Malformed, &catalog) {
        RequestOutcome::Immediate(Reply::Rejected(code)) => assert_eq!(code, "INVAILED METHOD"),
        _ => panic!(),
    }
    match screen_request("TEST", RequestBody::Text("anything".to_string()), &catalog) {
        RequestOutcome::Immediate(Reply::TestEcho(name)) => assert_eq!(name, "anything"),
        _ => panic!("the test method echoes its body even for unknown names"),
    }
}

#[test]
fn failed_group_does_not_block_other_groups() {
    let good = vec![
        ("a".to_string(), Scalar::Uint(1)),
        ("b".to_string(), Scalar::Uint(2)),
    ];
    let outcomes = vec![
        Err(ModbusError::ModbusError("connection refused".to_string())),
        Ok(good),
        Ok(vec![("b".to_string(), Scalar::Uint(9))]),
    ];
    let merged = merge_group_results(&outcomes);
    let lookup = |k: &str| {
        merged
            .iter()
            .find(|e| e.0 == k)
            .map(|e| e.1)
    };
    assert_eq!(lookup("a"), Some(Scalar::Uint(1)));
    assert_eq!(lookup("b"), Some(Scalar::Uint(9)), "a later group overwrites");
    assert_eq!(merged.len(), 2);

    match batch_reply(GetOrSet::Read, &outcomes) {
        Reply::GetResult(r) => assert_eq!(r.len(), 2),
        _ => panic!("a read request ends in a data reply"),
    }
    assert!(matches!(batch_reply(GetOrSet::Write, &outcomes), Reply::SetDone));
}

#[test]
fn batch_aborts_on_first_failure() {
    let catalog = vec![plc1()];
    let interface = &catalog[0].1;
    let items = vec![
        ("s1".to_string(), ("flow".to_string(), None)),
        ("s1".to_string(), ("missing".to_string(), None)),
        ("s1".to_string(), ("flow".to_string(), None)),
    ];
    let mut run = BatchRun::new(items, GetOrSet::Read);
    let _ = run.next_transaction(interface).unwrap();
    run.deliver(TransactionReply::Words(vec![0x4048, 0x0000]));
    // The second item does not resolve; the third is never attempted.
    assert!(run.next_transaction(interface).is_none());
    match run.into_result() {
        Err(ModbusError::ValueNotDefined(info)) => assert_eq!(info, "missing in s1"),
        other => panic!("expected a point-not-defined failure, got {:?}", other.err()),
    }
}

#[test]
fn transport_failure_aborts_with_the_driver_message() {
    let catalog = vec![plc1()];
    let interface = &catalog[0].1;
    let items = vec![("s1".to_string(), ("flow".to_string(), None))];
    let mut run = BatchRun::new(items, GetOrSet::Read);
    let _ = run.next_transaction(interface).unwrap();
    run.deliver(TransactionReply::Transport("timed out".to_string()));
    assert!(run.next_transaction(interface).is_none());
    assert!(matches!(run.into_result(), Err(ModbusError::ModbusError(m)) if m == "timed out"));
}

#[test]
fn device_exception_aborts_with_the_code() {
    let catalog = vec![plc1()];
    let interface = &catalog[0].1;
    let items = vec![("s1".to_string(), ("pump".to_string(), None))];
    let mut run = BatchRun::new(items, GetOrSet::Read);
    let (_, txn) = run.next_transaction(interface).unwrap();
    assert!(matches!(txn, Transaction::ReadCoils { address: 3, count: 1 }));
    run.deliver(TransactionReply::Exception(2));
    assert!(matches!(run.into_result(), Err(ModbusError::ModbusException(2))));
}

#[test]
fn resolution_errors_name_their_stage() {
    let catalog = vec![plc1()];
    let interface = &catalog[0].1;
    let r = prepare_item(
        interface,
        &"nope".to_string(),
        &"flow".to_string(),
        &None,
        GetOrSet::Read,
    );
    assert!(matches!(r, Err(ModbusError::SlaveNotFound(s)) if s == "nope"));
    let r = prepare_item(
        interface,
        &"s1".to_string(),
        &"pump".to_string(),
        &Some(Scalar::Uint(1)),
        GetOrSet::Write,
    );
    assert!(matches!(r, Err(ModbusError::InvailedValueInput(Scalar::Uint(1)))));
}

#[test]
fn write_only_blocks_refuse_writes() {
    let ir = vec![(
        "t".to_string(),
        ModbusData::new(0, BlockType::Ir, ValueType::U16, RequestFunction::Multiple),
    )];
    let slave = SlaveData::new(1, vec![], vec![], vec![], ir);
    let iface = Interface::new(ModbusProtocol::Tcp, "h".to_string(), 502, vec![(
        "s".to_string(),
        slave,
    )]);
    let r = prepare_item(
        &iface,
        &"s".to_string(),
        &"t".to_string(),
        &Some(Scalar::Uint(1)),
        GetOrSet::Write,
    );
    assert!(matches!(r, Err(ModbusError::WriteInputValue(BlockType::Ir))));
}

#[test]
fn two_word_single_register_write_issues_two_transactions() {
    let hr = vec![(
        "total".to_string(),
        ModbusData::new(20, BlockType::Hr, ValueType::U32, RequestFunction::Single),
    )];
    let slave = SlaveData::new(2, vec![], vec![], hr, vec![]);
    let iface = Interface::new(ModbusProtocol::Tcp, "h".to_string(), 502, vec![(
        "s".to_string(),
        slave,
    )]);
    let items = vec![(
        "s".to_string(),
        ("total".to_string(), Some(Scalar::Uint(0x0001_0002))),
    )];
    let mut run = BatchRun::new(items, GetOrSet::Write);
    let mut transactions = Vec::new();
    while let Some((_, txn)) = run.next_transaction(&iface) {
        transactions.push(txn);
        run.deliver(TransactionReply::WriteAck);
    }
    assert_eq!(transactions.len(), 2);
    assert!(matches!(
        transactions[0],
        Transaction::WriteSingleRegister { address: 20, word: 1 }
    ));
    assert!(matches!(
        transactions[1],
        Transaction::WriteSingleRegister { address: 21, word: 2 }
    ));
    assert!(run.into_result().is_ok());
}

#[test]
fn session_plans_follow_the_protocol() {
    let (_, tcp) = plc1();
    match session_plan(&tcp) {
        SessionPlan::Tcp { socket_addr } => assert_eq!(socket_addr, "127.0.0.1:1502"),
        _ => panic!("a TCP interface plans a TCP session"),
    }
    let rtu = Interface::new(ModbusProtocol::Rtu, "/dev/ttyUSB0".to_string(), 9600, vec![]);
    match session_plan(&rtu) {
        SessionPlan::Rtu { device, baudrate } => {
            assert_eq!(device, "/dev/ttyUSB0");
            assert_eq!(baudrate, 9600);
        },
        _ => panic!("a serial interface plans a serial session"),
    }
}

#[test]
fn error_labels_name_the_variant() {
    assert_eq!(
        ModbusError::SlaveNotFound("x".to_string()).label(),
        "SlaveNotFound"
    );
    assert_eq!(ModbusError::ModbusException(3).label(), "ModbusException");
}
