use modbus_gateway::catalog::{BlockType, Interface, ModbusData, ModbusProtocol, RequestFunction,
    SlaveData, ValueType};
use modbus_gateway::resolver::{GetOrSet, ModbusFunction};

fn point(addr: u8, block: BlockType, vt: ValueType, rf: RequestFunction) -> ModbusData {
    ModbusData::new(addr, block, vt, rf)
}

fn slave_with_collision() -> SlaveData {
    let co = vec![(
        "shared".to_string(),
        point(1, BlockType::Co, ValueType::Bool, RequestFunction::Single),
    )];
    let di = vec![(
        "shared".to_string(),
        point(2, BlockType::Di, ValueType::Bool, RequestFunction::Multiple),
    )];
    let hr = vec![
        (
            "shared".to_string(),
            point(3, BlockType::Hr, ValueType::U16, RequestFunction::Multiple),
        ),
        (
            "flow".to_string(),
            point(10, BlockType::Hr, ValueType::F32, RequestFunction::Multiple),
        ),
    ];
    let ir = vec![(
        "shared".to_string(),
        point(4, BlockType::Ir, ValueType::U16, RequestFunction::Multiple),
    )];
    SlaveData::new(9, co, di, hr, ir)
}

#[test]
fn find_prefers_coils_over_all_blocks() {
    let s = slave_with_collision();
    let found = s.find("shared").unwrap();
    assert_eq!(found.block_type(), BlockType::Co);
    assert_eq!(found.address(), 1);
}

#[test]
fn find_priority_order_walks_co_di_hr_ir() {
    let s = slave_with_collision();
    // Remove the coil entry: the discrete input wins next.
    let s2 = SlaveData::new(9, vec![], s.di.clone(), s.hr.clone(), s.ir.clone());
    assert_eq!(s2.find("shared").unwrap().block_type(), BlockType::Di);
    let s3 = SlaveData::new(9, vec![], vec![], s.hr.clone(), s.ir.clone());
    assert_eq!(s3.find("shared").unwrap().block_type(), BlockType::Hr);
    let s4 = SlaveData::new(9, vec![], vec![], vec![], s.ir.clone());
    assert_eq!(s4.find("shared").unwrap().block_type(), BlockType::Ir);
    assert!(s4.find("missing").is_none());
}

#[test]
fn find_slave_is_a_keyed_lookup() {
    let iface = Interface::new(
        ModbusProtocol::Tcp,
        "10.0.0.5".to_string(),
        502,
        vec![("s1".to_string(), slave_with_collision())],
    );
    assert_eq!(iface.find_slave("s1").unwrap().id(), 9);
    assert!(iface.find_slave("s2").is_none());
    assert_eq!(iface.modbusprotocol(), ModbusProtocol::Tcp);
    assert_eq!(iface.address(), "10.0.0.5");
    assert_eq!(iface.config(), 502);
}

#[test]
fn resolver_table_is_exhaustive() {
    let cases: Vec<(BlockType, GetOrSet, RequestFunction, Option<ModbusFunction>)> = vec![
        (BlockType::Co, GetOrSet::Read, RequestFunction::Single, Some(ModbusFunction::ReadCoils)),
        (BlockType::Co, GetOrSet::Read, RequestFunction::Multiple, Some(ModbusFunction::ReadCoils)),
        (BlockType::Co, GetOrSet::Write, RequestFunction::Single, Some(ModbusFunction::WriteSingleCoil)),
        (BlockType::Co, GetOrSet::Write, RequestFunction::Multiple, Some(ModbusFunction::WriteMultipleCoils)),
        (BlockType::Di, GetOrSet::Read, RequestFunction::Single, Some(ModbusFunction::ReadDiscreteInputs)),
        (BlockType::Di, GetOrSet::Read, RequestFunction::Multiple, Some(ModbusFunction::ReadDiscreteInputs)),
        (BlockType::Di, GetOrSet::Write, RequestFunction::Single, None),
        (BlockType::Di, GetOrSet::Write, RequestFunction::Multiple, None),
        (BlockType::Hr, GetOrSet::Read, RequestFunction::Single, Some(ModbusFunction::ReadHoldingRegisters)),
        (BlockType::Hr, GetOrSet::Read, RequestFunction::Multiple, Some(ModbusFunction::ReadHoldingRegisters)),
        (BlockType::Hr, GetOrSet::Write, RequestFunction::Single, Some(ModbusFunction::WriteSingleRegister)),
        (BlockType::Hr, GetOrSet::Write, RequestFunction::Multiple, Some(ModbusFunction::WriteMultipleRegisters)),
        (BlockType::Ir, GetOrSet::Read, RequestFunction::Single, Some(ModbusFunction::ReadInputRegisters)),
        (BlockType::Ir, GetOrSet::Read, RequestFunction::Multiple, Some(ModbusFunction::ReadInputRegisters)),
        (BlockType::Ir, GetOrSet::Write, RequestFunction::Single, None),
        (BlockType::Ir, GetOrSet::Write, RequestFunction::Multiple, None),
    ];
    for (block, intent, rf, expect) in cases {
        for vt in [
            ValueType::Bool,
            ValueType::U16,
            ValueType::I16,
            ValueType::U32,
            ValueType::I32,
            ValueType::F32,
        ] {
            let pd = point(0, block, vt, rf);
            let resolved = ModbusFunction::inference(&pd, intent);
            match expect {
                Some(f) => {
                    let (got, sz) = resolved.unwrap();
                    assert_eq!(got, f);
                    assert_eq!(sz as usize, vt.size());
                },
                None => assert!(resolved.is_none()),
            }
        }
    }
}

#[test]
fn labels_read_as_documented() {
    assert_eq!(BlockType::Co.label(), "Co");
    assert_eq!(BlockType::Ir.label(), "Ir");
    assert_eq!(ValueType::F32.label(), "F32");
    assert_eq!(ValueType::Bool.label(), "Bool");
}
