use svd_parser::cluster::cluster_register_parse;
use svd_parser::dim::RegisterClusterArrayInfo;
use svd_parser::error::{SVDError, SVDErrorKind};
use svd_parser::svd::access::Access;
use svd_parser::svd::bitrange::{BitRange, BitRangeType};
use svd_parser::svd::interrupt::Interrupt;
use svd_parser::xml::{parse_document, Node};
use std::ops::Deref;
use svd_parser::{
    parse, Cluster, ClusterInfo, Defaults, Device, Field, Peripheral, Register, RegisterCluster,
    RegisterInfo,
};

fn elem(xml: &str) -> Node {
    parse_document(xml).expect("well-formed XML")
}

fn bare(kind: SVDErrorKind) -> SVDError {
    SVDError { kind, context: vec![] }
}

fn text_node(name: &str, text: &str) -> Node {
    Node { name: name.to_string(), attributes: vec![], children: vec![], text: Some(text.to_string()) }
}

fn register_info(name: &str, offset: u32) -> RegisterInfo {
    RegisterInfo {
        name: name.to_string(),
        alternate_group: None,
        alternate_register: None,
        derived_from: None,
        description: "d".to_string(),
        address_offset: offset,
        size: None,
        access: None,
        reset_value: None,
        reset_mask: None,
        fields: None,
        write_constraint: None,
    }
}

fn register_xml(name: &str, offset: u32, more: &str) -> String {
    format!(
        "<register><name>{}</name><description>d</description><addressOffset>{}</addressOffset>{}</register>",
        name, offset, more
    )
}

fn peripheral(name: &str) -> Peripheral {
    Peripheral {
        name: name.to_string(),
        group_name: None,
        description: None,
        base_address: 0x4000_0000,
        interrupt: vec![],
        registers: None,
        derived_from: None,
    }
}

const DEVICE_HEAD: &str = "<device><name>CHIP</name>";
const DEVICE_TAIL: &str = "<peripherals>\
    <peripheral><name>TIM</name><baseAddress>0x40000000</baseAddress></peripheral>\
    </peripherals></device>";

#[test]
fn field_record() {
    let node = elem(
        "<field><name>EN</name><description>enable</description><bitRange>[0:0]</bitRange>\
         <access>read-write</access>\
         <enumeratedValues><enumeratedValue><name>ON</name><value>1</value></enumeratedValue></enumeratedValues>\
         <enumeratedValues/>\
         <writeConstraint><writeAsRead>1</writeAsRead></writeConstraint></field>",
    );
    let field = Field::parse(&node).expect("a field");
    assert_eq!(field.name, "EN");
    assert_eq!(field.description, Some("enable".to_string()));
    assert_eq!(
        field.bit_range,
        BitRange { offset: 0, width: 1, range_type: BitRangeType::BitRange }
    );
    assert_eq!(field.access, Some(Access::ReadWrite));
    assert_eq!(field.enumerated_values.len(), 2);
    assert_eq!(field.enumerated_values[0].values.len(), 1);
    assert_eq!(field.enumerated_values[0].values[0].name, "ON");
    assert_eq!(field.enumerated_values[1].values.len(), 0);
    assert!(field.write_constraint.is_some());
    assert_eq!(field.clone(), field);
}

#[test]
fn field_wrong_tag() {
    let node = elem("<register><name>EN</name></register>");
    assert_eq!(
        Field::parse(&node),
        Err(bare(SVDErrorKind::NotExpectedTag(node.clone(), "field".to_string())))
    );
}

#[test]
fn field_failure_carries_its_name() {
    let node = elem("<field><name>EN</name><access>never</access><bitRange>[0:0]</bitRange></field>");
    assert_eq!(
        Field::parse(&node),
        Err(SVDError {
            kind: SVDErrorKind::UnknownAccessType(text_node("access", "never")),
            context: vec!["In field `EN`".to_string()],
        })
    );
    let unnamed = elem("<field><bitRange>[0:0]</bitRange></field>");
    assert_eq!(
        Field::parse(&unnamed),
        Err(bare(SVDErrorKind::MissingTag(unnamed.clone(), "name".to_string())))
    );
}

#[test]
fn register_single() {
    let node = elem(&register_xml(
        "CR",
        4,
        "<size>32</size><access>read-only</access><resetValue>0x1</resetValue>\
         <resetMask>0xFF</resetMask><alternateGroup>g</alternateGroup>\
         <alternateRegister>CR1</alternateRegister>",
    ));
    let expected = RegisterInfo {
        size: Some(32),
        access: Some(Access::ReadOnly),
        reset_value: Some(1),
        reset_mask: Some(255),
        alternate_group: Some("g".to_string()),
        alternate_register: Some("CR1".to_string()),
        ..register_info("CR", 4)
    };
    let register = Register::parse(&node).expect("a register");
    assert_eq!(register, Register::Single(expected));
    assert_eq!(register.deref().name, "CR");
    assert_eq!(register.address_offset, 4);
    assert_eq!(register.clone(), register);
}

#[test]
fn register_derived_from_attribute() {
    let node =
        elem("<register derivedFrom=\"CR\"><name>CR2</name><description>d</description><addressOffset>8</addressOffset></register>");
    let expected = RegisterInfo { derived_from: Some("CR".to_string()), ..register_info("CR2", 8) };
    assert_eq!(Register::parse(&node), Ok(Register::Single(expected)));
}

#[test]
fn register_fields_absent_or_empty() {
    let without = elem(&register_xml("A", 0, ""));
    let with_empty = elem(&register_xml("A", 0, "<fields></fields>"));
    let a = RegisterInfo::parse(&without).expect("a register");
    let b = RegisterInfo::parse(&with_empty).expect("a register");
    assert_eq!(a.fields, None);
    assert_eq!(b.fields, Some(vec![]));
    assert_ne!(a, b);
}

#[test]
fn register_fields_in_order() {
    let node = elem(&register_xml(
        "A",
        0,
        "<fields><field><name>F0</name><bitOffset>0</bitOffset><bitWidth>1</bitWidth></field>\
         <field><name>F1</name><lsb>1</lsb><msb>2</msb></field></fields>",
    ));
    let info = RegisterInfo::parse(&node).expect("a register");
    let fields = info.fields.expect("fields");
    assert_eq!(fields.len(), 2);
    assert_eq!(fields[0].name, "F0");
    assert_eq!(fields[1].name, "F1");
    assert_eq!(
        fields[1].bit_range,
        BitRange { offset: 1, width: 2, range_type: BitRangeType::MsbLsb }
    );
}

#[test]
fn register_failure_carries_names() {
    let node = elem(&register_xml(
        "A",
        0,
        "<fields><field><name>F0</name><bitOffset>zero</bitOffset><bitWidth>1</bitWidth></field></fields>",
    ));
    assert_eq!(
        Register::parse(&node),
        Err(SVDError {
            kind: SVDErrorKind::InvalidNumber("zero".to_string()),
            context: vec!["In field `F0`".to_string(), "In register `A`".to_string()],
        })
    );
    let bad_size = elem(&register_xml("A", 0, "<size>big</size>"));
    assert_eq!(
        Register::parse(&bad_size),
        Err(SVDError {
            kind: SVDErrorKind::InvalidNumber("big".to_string()),
            context: vec!["In register `A`".to_string()],
        })
    );
    let stray = elem(&register_xml("A", 0, "<fields><other/></fields>"));
    assert_eq!(
        Register::parse(&stray),
        Err(SVDError {
            kind: SVDErrorKind::NotExpectedTag(
                Node { name: "other".to_string(), attributes: vec![], children: vec![], text: None },
                "field".to_string()
            ),
            context: vec!["In register `A`".to_string()],
        })
    );
}

#[test]
fn register_wrong_tag() {
    let node = elem("<cluster><name>A</name></cluster>");
    assert_eq!(
        Register::parse(&node),
        Err(bare(SVDErrorKind::NotExpectedTag(node.clone(), "register".to_string())))
    );
}

#[test]
fn register_array_with_labels() {
    let node = elem(&register_xml(
        "CH%s",
        0,
        "<dim>3</dim><dimIncrement>0x10</dimIncrement><dimIndex>A-C</dimIndex>",
    ));
    let expected = Register::Array(
        register_info("CH%s", 0),
        RegisterClusterArrayInfo {
            dim: 3,
            dim_increment: 16,
            dim_index: Some(vec!["A".to_string(), "B".to_string(), "C".to_string()]),
        },
    );
    assert_eq!(Register::parse(&node), Ok(expected));
}

#[test]
fn register_array_without_labels() {
    let node = elem(&register_xml("CH%s", 0, "<dim>4</dim><dimIncrement>4</dimIncrement>"));
    let expected = Register::Array(
        register_info("CH%s", 0),
        RegisterClusterArrayInfo { dim: 4, dim_increment: 4, dim_index: None },
    );
    let register = Register::parse(&node).expect("an array");
    assert_eq!(register, expected);
    assert_eq!(register.deref().name, "CH%s");
}

#[test]
fn register_array_label_count_must_match() {
    let node = elem(&register_xml(
        "CH%s",
        0,
        "<dim>4</dim><dimIncrement>4</dimIncrement><dimIndex>0,1,2</dimIndex>",
    ));
    assert_eq!(
        Register::parse(&node),
        Err(bare(SVDErrorKind::ArrayCardinalityMismatch(4, 3)))
    );
    let more = elem(&register_xml(
        "CH%s",
        0,
        "<dim>2</dim><dimIncrement>4</dimIncrement><dimIndex>0-2</dimIndex>",
    ));
    assert_eq!(
        Register::parse(&more),
        Err(bare(SVDErrorKind::ArrayCardinalityMismatch(2, 3)))
    );
}

#[test]
fn register_array_needs_placeholder() {
    let node = elem(&register_xml("CH", 0, "<dim>2</dim><dimIncrement>4</dimIncrement>"));
    assert_eq!(
        Register::parse(&node),
        Err(bare(SVDErrorKind::MissingPlaceholder("CH".to_string())))
    );
}

#[test]
fn array_info_failures() {
    let bad_dim = elem("<r><dim>0x4</dim><dimIncrement>4</dimIncrement></r>");
    assert_eq!(
        RegisterClusterArrayInfo::parse(&bad_dim),
        Err(SVDError {
            kind: SVDErrorKind::InvalidNumber("0x4".to_string()),
            context: vec!["<dim> invalid".to_string()],
        })
    );
    let no_dim = elem("<r><dimIncrement>4</dimIncrement></r>");
    assert_eq!(
        RegisterClusterArrayInfo::parse(&no_dim),
        Err(bare(SVDErrorKind::MissingTag(no_dim.clone(), "dim".to_string())))
    );
    let no_step = elem("<r><dim>4</dim></r>");
    assert_eq!(
        RegisterClusterArrayInfo::parse(&no_step),
        Err(bare(SVDErrorKind::MissingTag(no_step.clone(), "dimIncrement".to_string())))
    );
    let no_labels = elem("<r><dim>4</dim><dimIncrement>0x4</dimIncrement><dimIndex/></r>");
    assert_eq!(
        RegisterClusterArrayInfo::parse(&no_labels),
        Err(bare(SVDErrorKind::EmptyTag(
            Node { name: "dimIndex".to_string(), attributes: vec![], children: vec![], text: None },
            "dimIndex".to_string()
        )))
    );
    let good = elem("<r><dim>2</dim><dimIncrement>0x4</dimIncrement><dimIndex>X,Y</dimIndex></r>");
    let info = RegisterClusterArrayInfo::parse(&good).expect("an array");
    assert_eq!(info.dim, 2);
    assert_eq!(info.dim_increment, 4);
    assert_eq!(info.dim_index, Some(vec!["X".to_string(), "Y".to_string()]));
    assert_eq!(info.clone(), info);
}

fn cluster_xml(name: &str, inner: &str) -> String {
    format!(
        "<cluster><name>{}</name><description>d</description><addressOffset>0x100</addressOffset>{}</cluster>",
        name, inner
    )
}

fn cluster_info(name: &str, children: Vec<RegisterCluster>) -> ClusterInfo {
    ClusterInfo {
        name: name.to_string(),
        description: "d".to_string(),
        header_struct_name: None,
        address_offset: 256,
        size: None,
        access: None,
        reset_value: None,
        reset_mask: None,
        children,
    }
}

#[test]
fn cluster_with_nested_children() {
    let inner = format!(
        "<headerStructName>hdr</headerStructName>{}{}{}",
        register_xml("R0", 0, ""),
        cluster_xml("INNER", &register_xml("R1", 4, "")),
        register_xml("R2", 8, "")
    );
    let node = elem(&cluster_xml("OUTER", &inner));
    let expected = Cluster::Single(ClusterInfo {
        header_struct_name: Some("hdr".to_string()),
        ..cluster_info(
            "OUTER",
            vec![
                RegisterCluster::Register(Register::Single(register_info("R0", 0))),
                RegisterCluster::Cluster(Cluster::Single(cluster_info(
                    "INNER",
                    vec![RegisterCluster::Register(Register::Single(register_info("R1", 4)))],
                ))),
                RegisterCluster::Register(Register::Single(register_info("R2", 8))),
            ],
        )
    });
    let cluster = Cluster::parse(&node).expect("a cluster");
    assert_eq!(cluster, expected);
    assert_eq!(cluster.deref().name, "OUTER");
    assert_eq!(cluster.children.len(), 3);
    assert_eq!(cluster.clone(), cluster);
}

#[test]
fn cluster_array() {
    let node = elem(&cluster_xml(
        "BANK%s",
        "<dim>2</dim><dimIncrement>0x20</dimIncrement><dimIndex>0-1</dimIndex>",
    ));
    let expected = Cluster::Array(
        cluster_info("BANK%s", vec![]),
        RegisterClusterArrayInfo {
            dim: 2,
            dim_increment: 32,
            dim_index: Some(vec!["0".to_string(), "1".to_string()]),
        },
    );
    assert_eq!(Cluster::parse(&node), Ok(expected));
}

#[test]
fn cluster_array_failures() {
    let unnamed = elem(&cluster_xml("BANK", "<dim>2</dim><dimIncrement>0x20</dimIncrement>"));
    assert_eq!(
        Cluster::parse(&unnamed),
        Err(bare(SVDErrorKind::MissingPlaceholder("BANK".to_string())))
    );
    let short = elem(&cluster_xml(
        "BANK%s",
        "<dim>2</dim><dimIncrement>0x20</dimIncrement><dimIndex>0</dimIndex>",
    ));
    assert_eq!(
        Cluster::parse(&short),
        Err(bare(SVDErrorKind::ArrayCardinalityMismatch(2, 1)))
    );
    let wrong = elem("<register><name>A</name></register>");
    assert_eq!(
        Cluster::parse(&wrong),
        Err(bare(SVDErrorKind::NotExpectedTag(wrong.clone(), "cluster".to_string())))
    );
}

#[test]
fn dispatch_by_tag() {
    let r = elem(&register_xml("R", 0, ""));
    assert_eq!(
        cluster_register_parse(&r),
        Ok(RegisterCluster::Register(Register::Single(register_info("R", 0))))
    );
    let c = elem(&cluster_xml("C", ""));
    assert_eq!(
        cluster_register_parse(&c),
        Ok(RegisterCluster::Cluster(Cluster::Single(cluster_info("C", vec![]))))
    );
    let other = elem("<field><name>F</name></field>");
    assert_eq!(
        cluster_register_parse(&other),
        Err(bare(SVDErrorKind::InvalidRegisterCluster(other.clone(), "field".to_string())))
    );
}

#[test]
fn peripheral_record() {
    let xml = format!(
        "<peripheral derivedFrom=\"TIM1\"><name>TIM2</name><groupName>TIM</groupName>\
         <description>timer</description><baseAddress>0x40000000</baseAddress>\
         <interrupt><name>I0</name><value>1</value></interrupt>\
         <registers>{}{}{}</registers>\
         <interrupt><name>I1</name><value>2</value></interrupt></peripheral>",
        cluster_xml("C0", ""),
        register_xml("R0", 0, ""),
        cluster_xml("C1", "")
    );
    let expected = Peripheral {
        name: "TIM2".to_string(),
        group_name: Some("TIM".to_string()),
        description: Some("timer".to_string()),
        base_address: 0x4000_0000,
        interrupt: vec![
            Interrupt { name: "I0".to_string(), description: None, value: 1 },
            Interrupt { name: "I1".to_string(), description: None, value: 2 },
        ],
        registers: Some(vec![
            RegisterCluster::Cluster(Cluster::Single(cluster_info("C0", vec![]))),
            RegisterCluster::Register(Register::Single(register_info("R0", 0))),
            RegisterCluster::Cluster(Cluster::Single(cluster_info("C1", vec![]))),
        ]),
        derived_from: Some("TIM1".to_string()),
    };
    let got = Peripheral::parse(&elem(&xml)).expect("a peripheral");
    assert_eq!(got, expected);
    assert_eq!(got.clone(), got);
}

#[test]
fn peripheral_registers_absent_or_empty() {
    let without = elem("<peripheral><name>P</name><baseAddress>0</baseAddress></peripheral>");
    let with_empty =
        elem("<peripheral><name>P</name><baseAddress>0</baseAddress><registers/></peripheral>");
    assert_eq!(Peripheral::parse(&without).expect("a peripheral").registers, None);
    assert_eq!(Peripheral::parse(&with_empty).expect("a peripheral").registers, Some(vec![]));
}

#[test]
fn peripheral_missing_name() {
    let node = elem("<peripheral><baseAddress>0x40000000</baseAddress></peripheral>");
    assert_eq!(
        Peripheral::parse(&node),
        Err(bare(SVDErrorKind::MissingTag(node.clone(), "name".to_string())))
    );
}

#[test]
fn peripheral_wrong_tag() {
    let node = elem("<device><name>P</name></device>");
    assert_eq!(
        Peripheral::parse(&node),
        Err(bare(SVDErrorKind::NotExpectedTag(node.clone(), "peripheral".to_string())))
    );
}

#[test]
fn peripheral_failures_carry_the_trail() {
    let node = elem(
        "<peripheral><name>P</name><baseAddress>0</baseAddress>\
         <interrupt><name>I0</name><value>1</value></interrupt>\
         <interrupt><name>I1</name><value>x</value></interrupt></peripheral>",
    );
    assert_eq!(
        Peripheral::parse(&node),
        Err(SVDError {
            kind: SVDErrorKind::InvalidNumber("x".to_string()),
            context: vec!["Parsing interrupt #1".to_string(), "In peripheral `P`".to_string()],
        })
    );
    let no_base = elem("<peripheral><name>P</name></peripheral>");
    assert_eq!(
        Peripheral::parse(&no_base),
        Err(SVDError {
            kind: SVDErrorKind::MissingTag(no_base.clone(), "baseAddress".to_string()),
            context: vec!["In peripheral `P`".to_string()],
        })
    );
    let stray = elem(
        "<peripheral><name>P</name><baseAddress>0</baseAddress><registers><field/></registers></peripheral>",
    );
    assert_eq!(
        Peripheral::parse(&stray),
        Err(SVDError {
            kind: SVDErrorKind::InvalidRegisterCluster(
                Node { name: "field".to_string(), attributes: vec![], children: vec![], text: None },
                "field".to_string()
            ),
            context: vec!["In peripheral `P`".to_string()],
        })
    );
}

#[test]
fn derive_from_fills_what_is_unset() {
    let i1 = Interrupt { name: "I1".to_string(), description: None, value: 7 };
    let a = Peripheral { description: Some("d".to_string()), ..peripheral("A") };
    let b = Peripheral {
        group_name: Some("g".to_string()),
        description: Some("other".to_string()),
        interrupt: vec![i1.clone()],
        ..peripheral("B")
    };
    let merged = a.derive_from(&b);
    assert_eq!(merged.group_name, Some("g".to_string()));
    assert_eq!(merged.description, Some("d".to_string()));
    assert_eq!(merged.interrupt, vec![i1]);
    assert_eq!(merged.name, "A");
    assert_eq!(merged.registers, None);
}

#[test]
fn derive_from_keeps_what_is_set() {
    let own = Interrupt { name: "OWN".to_string(), description: None, value: 1 };
    let base = Interrupt { name: "BASE".to_string(), description: None, value: 2 };
    let regs = vec![RegisterCluster::Register(Register::Single(register_info("R", 0)))];
    let a = Peripheral {
        group_name: Some("mine".to_string()),
        interrupt: vec![own.clone()],
        registers: Some(vec![]),
        derived_from: Some("B".to_string()),
        base_address: 0x1000,
        ..peripheral("A")
    };
    let b = Peripheral {
        group_name: Some("g".to_string()),
        description: Some("base".to_string()),
        interrupt: vec![base],
        registers: Some(regs.clone()),
        derived_from: Some("C".to_string()),
        base_address: 0x2000,
        ..peripheral("B")
    };
    let merged = a.derive_from(&b);
    assert_eq!(merged.name, "A");
    assert_eq!(merged.group_name, Some("mine".to_string()));
    assert_eq!(merged.description, Some("base".to_string()));
    assert_eq!(merged.interrupt, vec![own]);
    assert_eq!(merged.registers, Some(vec![]));
    assert_eq!(merged.derived_from, Some("B".to_string()));
    assert_eq!(merged.base_address, 0x1000);
    let other_way = b.derive_from(&a);
    assert_eq!(other_way.registers, Some(regs));
    assert_eq!(other_way.name, "B");
}

#[test]
fn defaults_record() {
    let node = elem(
        "<device><size>32</size><resetValue>0</resetValue><resetMask>0xFFFFFFFF</resetMask>\
         <access>read-write</access></device>",
    );
    assert_eq!(
        Defaults::parse(&node),
        Ok(Defaults {
            size: Some(32),
            reset_value: Some(0),
            reset_mask: Some(u32::MAX),
            access: Some(Access::ReadWrite),
        })
    );
    assert_eq!(
        Defaults::parse(&elem("<device/>")),
        Ok(Defaults { size: None, reset_value: None, reset_mask: None, access: None })
    );
}

#[test]
fn defaults_unreadable_values() {
    let bad_access = elem("<device><size>8</size><access>sometimes</access></device>");
    assert_eq!(
        Defaults::parse(&bad_access),
        Ok(Defaults { size: Some(8), reset_value: None, reset_mask: None, access: None })
    );
    let bad_size = elem("<device><size>wide</size></device>");
    assert_eq!(
        Defaults::parse(&bad_size),
        Err(bare(SVDErrorKind::InvalidNumber("wide".to_string())))
    );
}

#[test]
fn device_without_cpu() {
    let xml = format!("{}{}", DEVICE_HEAD, DEVICE_TAIL);
    let device = parse(&xml).expect("a device");
    assert_eq!(device.name, "CHIP");
    assert_eq!(device.cpu, None);
    assert_eq!(device.peripherals, vec![peripheral("TIM")]);
    assert_eq!(
        device.defaults,
        Defaults { size: None, reset_value: None, reset_mask: None, access: None }
    );
}

#[test]
fn device_with_cpu_and_defaults() {
    let xml = format!(
        "<?xml version=\"1.0\" encoding=\"utf-8\"?>\n{}\n  <cpu><name>CM0</name><revision>r1</revision>\
         <endian>big</endian><mpuPresent>0</mpuPresent><fpuPresent>0</fpuPresent>\
         <nvicPrioBits>2</nvicPrioBits><vendorSystickConfig>1</vendorSystickConfig></cpu>\n\
         <size>0x20</size>{}",
        DEVICE_HEAD, DEVICE_TAIL
    );
    let device = Device::parse(&xml).expect("a device");
    let cpu = device.cpu.clone().expect("a processor");
    assert_eq!(cpu.name, "CM0");
    assert_eq!(cpu.nvic_priority_bits, 2);
    assert!(cpu.has_vendor_systick);
    assert_eq!(device.defaults.size, Some(32));
    assert_eq!(device.peripherals.len(), 1);
    assert_eq!(device.clone(), device);
}

#[test]
fn device_peripherals_in_order() {
    let xml = "<device><name>CHIP</name><peripherals>\
         <peripheral><name>B</name><baseAddress>2</baseAddress></peripheral>\
         <peripheral><name>A</name><baseAddress>1</baseAddress></peripheral>\
         <peripheral><name>C</name><baseAddress>3</baseAddress></peripheral>\
         </peripherals></device>";
    let device = parse(xml).expect("a device");
    let names: Vec<&str> = device.peripherals.iter().map(|p| p.name.as_str()).collect();
    assert_eq!(names, vec!["B", "A", "C"]);
}

#[test]
fn device_failures() {
    assert_eq!(parse("<device><name>CHIP"), Err(bare(SVDErrorKind::MalformedDocument)));
    let no_name = "<device><peripherals/></device>";
    assert_eq!(
        parse(no_name),
        Err(bare(SVDErrorKind::MissingTag(elem(no_name), "name".to_string())))
    );
    let no_list = "<device><name>CHIP</name></device>";
    assert_eq!(
        parse(no_list),
        Err(bare(SVDErrorKind::MissingTag(elem(no_list), "peripherals".to_string())))
    );
    let bad_cpu = "<device><name>CHIP</name><cpu><name>CM0</name></cpu><peripherals/></device>";
    assert_eq!(
        parse(bad_cpu),
        Err(bare(SVDErrorKind::MissingTag(
            elem("<cpu><name>CM0</name></cpu>"),
            "revision".to_string()
        )))
    );
    let bad_peripheral = "<device><name>CHIP</name><peripherals>\
         <peripheral><name>A</name><baseAddress>1</baseAddress></peripheral>\
         <peripheral><name>B</name><baseAddress>?</baseAddress></peripheral>\
         </peripherals></device>";
    assert_eq!(
        parse(bad_peripheral),
        Err(SVDError {
            kind: SVDErrorKind::InvalidNumber("?".to_string()),
            context: vec!["In peripheral `B`".to_string()],
        })
    );
}

#[test]
fn device_from_tree_matches_text() {
    let xml = format!("{}{}", DEVICE_HEAD, DEVICE_TAIL);
    let root = elem(&xml);
    assert_eq!(Device::parse_tree(&root), parse(&xml));
}

#[test]
fn decoding_twice_gives_equal_models() {
    let xml = format!(
        "{}<size>16</size><peripherals><peripheral><name>P</name><baseAddress>0x10</baseAddress>\
         <registers>{}{}</registers></peripheral></peripherals></device>",
        DEVICE_HEAD,
        register_xml("R%s", 0, "<dim>2</dim><dimIncrement>4</dimIncrement><dimIndex>A,B</dimIndex>"),
        cluster_xml("C", &register_xml("Q", 4, "<fields/>"))
    );
    let first = parse(&xml);
    let second = parse(&xml);
    assert!(first.is_ok());
    assert_eq!(first, second);
    let broken = "<device><name>CHIP</name></device>";
    assert_eq!(parse(broken), parse(broken));
}
