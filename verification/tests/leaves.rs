use svd_parser::error::{InvalidBitRange, SVDError, SVDErrorKind};
use svd_parser::parse::{
    get_child_bool, get_child_elem, get_child_u32, get_child_u32_opt, get_text, parse_bool,
    parse_u32,
};
use svd_parser::svd::access::Access;
use svd_parser::svd::bitrange::{read_bracket_pair, BitRange, BitRangeType};
use svd_parser::svd::cpu::Cpu;
use svd_parser::svd::endian::Endian;
use svd_parser::svd::enumeratedvalue::EnumeratedValue;
use svd_parser::svd::enumeratedvalues::EnumeratedValues;
use svd_parser::svd::interrupt::Interrupt;
use svd_parser::svd::usage::Usage;
use svd_parser::svd::writeconstraint::{WriteConstraint, WriteConstraintRange};
use svd_parser::xml::{parse_document, Node};

fn tree(xml: &str) -> Node {
    parse_document(xml).expect("well-formed XML")
}

fn plain(kind: SVDErrorKind) -> SVDError {
    SVDError { kind, context: vec![] }
}

fn leaf(name: &str, text: Option<&str>) -> Node {
    Node {
        name: name.to_string(),
        attributes: vec![],
        children: vec![],
        text: text.map(|t| t.to_string()),
    }
}

#[test]
fn document_becomes_a_tree() {
    let root = tree("<a x=\"1\"><b>one</b><!-- note --><c/><b>two</b></a>");
    let expected = Node {
        name: "a".to_string(),
        attributes: vec![("x".to_string(), "1".to_string())],
        children: vec![leaf("b", Some("one")), leaf("c", None), leaf("b", Some("two"))],
        text: None,
    };
    assert_eq!(root, expected);
}

#[test]
fn malformed_document_is_no_tree() {
    assert_eq!(parse_document("<a><b></a>"), None);
    assert_eq!(parse_document(""), None);
    assert_eq!(parse_document("plain text"), None);
}

#[test]
fn get_child_takes_the_first() {
    let root = tree("<a><b>one</b><c/><b>two</b></a>");
    assert_eq!(root.get_child("b"), Some(&leaf("b", Some("one"))));
    assert_eq!(root.get_child("c"), Some(&leaf("c", None)));
    assert_eq!(root.get_child("d"), None);
}

#[test]
fn get_attribute_by_key() {
    let root = tree("<a derivedFrom=\"B\" other=\"x\"/>");
    assert_eq!(root.get_attribute("derivedFrom"), Some("B".to_string()));
    assert_eq!(root.get_attribute("other"), Some("x".to_string()));
    assert_eq!(root.get_attribute("missing"), None);
    let twice = Node {
        name: "a".to_string(),
        attributes: vec![
            ("k".to_string(), "first".to_string()),
            ("k".to_string(), "last".to_string()),
        ],
        children: vec![],
        text: None,
    };
    assert_eq!(twice.get_attribute("k"), Some("last".to_string()));
}

#[test]
fn node_clone_is_equal() {
    let root = tree("<a x=\"1\"><b>one</b><c><d>deep</d></c></a>");
    assert_eq!(root.clone(), root);
}

#[test]
fn child_text_required_and_optional() {
    let root = tree("<a><name>TIM</name><empty></empty></a>");
    assert_eq!(root.get_child_text("name"), Ok("TIM".to_string()));
    assert_eq!(root.get_child_text_opt("name"), Ok(Some("TIM".to_string())));
    assert_eq!(root.get_child_text_opt("absent"), Ok(None));
    assert_eq!(
        root.get_child_text("absent"),
        Err(plain(SVDErrorKind::MissingTag(root.clone(), "absent".to_string())))
    );
    let empty = leaf("empty", None);
    assert_eq!(
        root.get_child_text_opt("empty"),
        Err(plain(SVDErrorKind::EmptyTag(empty.clone(), "empty".to_string())))
    );
    assert_eq!(
        root.get_child_text("empty"),
        Err(plain(SVDErrorKind::EmptyTag(empty.clone(), "empty".to_string())))
    );
    assert_eq!(get_text(&empty), Err(plain(SVDErrorKind::EmptyTag(empty, "empty".to_string()))));
}

#[test]
fn child_element_required() {
    let root = tree("<a><b>1</b></a>");
    assert_eq!(get_child_elem("b", &root), Ok(&leaf("b", Some("1"))));
    assert_eq!(
        get_child_elem("c", &root),
        Err(plain(SVDErrorKind::MissingTag(root.clone(), "c".to_string())))
    );
}

#[test]
fn numbers_in_nodes() {
    assert_eq!(parse_u32(&leaf("v", Some("0x20"))), Ok(32));
    assert_eq!(
        parse_u32(&leaf("v", Some("zz"))),
        Err(plain(SVDErrorKind::InvalidNumber("zz".to_string())))
    );
    assert_eq!(
        parse_u32(&leaf("v", None)),
        Err(plain(SVDErrorKind::EmptyTag(leaf("v", None), "v".to_string())))
    );
    let root = tree("<a><size>32</size><bad>x</bad></a>");
    assert_eq!(get_child_u32("size", &root), Ok(32));
    assert_eq!(get_child_u32_opt("size", &root), Ok(Some(32)));
    assert_eq!(get_child_u32_opt("none", &root), Ok(None));
    assert_eq!(
        get_child_u32("none", &root),
        Err(plain(SVDErrorKind::MissingTag(root.clone(), "none".to_string())))
    );
    assert_eq!(
        get_child_u32_opt("bad", &root),
        Err(plain(SVDErrorKind::InvalidNumber("x".to_string())))
    );
}

#[test]
fn booleans_in_nodes() {
    assert_eq!(parse_bool(&leaf("v", Some("true"))), Ok(true));
    assert_eq!(parse_bool(&leaf("v", Some("0"))), Ok(false));
    assert_eq!(
        parse_bool(&leaf("v", Some("yes"))),
        Err(plain(SVDErrorKind::InvalidBooleanValue(leaf("v", Some("yes")), "yes".to_string())))
    );
    let root = tree("<a><on>1</on></a>");
    assert_eq!(get_child_bool("on", &root), Ok(true));
    assert_eq!(
        get_child_bool("off", &root),
        Err(plain(SVDErrorKind::MissingTag(root.clone(), "off".to_string())))
    );
}

#[test]
fn access_variants() {
    assert_eq!(Access::parse(&leaf("access", Some("read-only"))), Ok(Access::ReadOnly));
    assert_eq!(Access::parse(&leaf("access", Some("read-write"))), Ok(Access::ReadWrite));
    assert_eq!(Access::parse(&leaf("access", Some("read-writeOnce"))), Ok(Access::ReadWriteOnce));
    assert_eq!(Access::parse(&leaf("access", Some("write-only"))), Ok(Access::WriteOnly));
    assert_eq!(Access::parse(&leaf("access", Some("writeOnce"))), Ok(Access::WriteOnce));
    let bad = leaf("access", Some("sometimes"));
    assert_eq!(Access::parse(&bad), Err(plain(SVDErrorKind::UnknownAccessType(bad.clone()))));
    let root = tree("<r><access>write-only</access></r>");
    assert_eq!(Access::parse_child(&root), Ok(Some(Access::WriteOnly)));
    assert_eq!(Access::parse_child(&tree("<r/>")), Ok(None));
}

#[test]
fn endian_variants() {
    assert_eq!(Endian::parse(&leaf("endian", Some("little"))), Ok(Endian::Little));
    assert_eq!(Endian::parse(&leaf("endian", Some("big"))), Ok(Endian::Big));
    assert_eq!(Endian::parse(&leaf("endian", Some("selectable"))), Ok(Endian::Selectable));
    assert_eq!(Endian::parse(&leaf("endian", Some("other"))), Ok(Endian::Other));
    assert_eq!(
        Endian::parse(&leaf("endian", Some("middle"))),
        Err(plain(SVDErrorKind::UnknownEndian("middle".to_string())))
    );
}

#[test]
fn usage_variants() {
    assert_eq!(Usage::parse(&leaf("usage", Some("read"))), Ok(Usage::Read));
    assert_eq!(Usage::parse(&leaf("usage", Some("write"))), Ok(Usage::Write));
    assert_eq!(Usage::parse(&leaf("usage", Some("read-write"))), Ok(Usage::ReadWrite));
    let bad = leaf("usage", Some("never"));
    assert_eq!(Usage::parse(&bad), Err(plain(SVDErrorKind::UnknownUsageVariant(bad.clone()))));
}

#[test]
fn bracket_pairs() {
    assert_eq!(read_bracket_pair("[7:4]"), Ok((7, 4)));
    assert_eq!(read_bracket_pair("[31:0]"), Ok((31, 0)));
    assert_eq!(read_bracket_pair("7:4"), Err(InvalidBitRange::Syntax));
    assert_eq!(read_bracket_pair("[7:4"), Err(InvalidBitRange::Syntax));
    assert_eq!(read_bracket_pair("["), Err(InvalidBitRange::Syntax));
    assert_eq!(read_bracket_pair("]"), Err(InvalidBitRange::Syntax));
    assert_eq!(read_bracket_pair(""), Err(InvalidBitRange::Syntax));
    assert_eq!(read_bracket_pair("[7]"), Err(InvalidBitRange::Syntax));
    assert_eq!(read_bracket_pair("[]"), Err(InvalidBitRange::ParseError));
    assert_eq!(read_bracket_pair("[x:4]"), Err(InvalidBitRange::ParseError));
    assert_eq!(read_bracket_pair("[7:y]"), Err(InvalidBitRange::ParseError));
    assert_eq!(read_bracket_pair("[7:]"), Err(InvalidBitRange::ParseError));
    assert_eq!(read_bracket_pair("[7:4:1]"), Err(InvalidBitRange::ParseError));
}

#[test]
fn bit_range_three_notations() {
    let a = tree("<field><bitRange>[7:4]</bitRange></field>");
    assert_eq!(
        BitRange::parse(&a),
        Ok(BitRange { offset: 4, width: 4, range_type: BitRangeType::BitRange })
    );
    let b = tree("<field><lsb>8</lsb><msb>15</msb></field>");
    assert_eq!(
        BitRange::parse(&b),
        Ok(BitRange { offset: 8, width: 8, range_type: BitRangeType::MsbLsb })
    );
    let c = tree("<field><bitOffset>3</bitOffset><bitWidth>2</bitWidth></field>");
    assert_eq!(
        BitRange::parse(&c),
        Ok(BitRange { offset: 3, width: 2, range_type: BitRangeType::OffsetWidth })
    );
    let d = tree("<field><bitRange>[0:0]</bitRange><lsb>8</lsb><msb>15</msb></field>");
    assert_eq!(
        BitRange::parse(&d),
        Ok(BitRange { offset: 0, width: 1, range_type: BitRangeType::BitRange })
    );
}

#[test]
fn bit_range_failures() {
    let a = tree("<field><bitRange>7:4</bitRange></field>");
    assert_eq!(
        BitRange::parse(&a),
        Err(plain(SVDErrorKind::InvalidBitRange(a.clone(), InvalidBitRange::Syntax)))
    );
    let b = tree("<field><bitRange>[a:4]</bitRange></field>");
    assert_eq!(
        BitRange::parse(&b),
        Err(plain(SVDErrorKind::InvalidBitRange(b.clone(), InvalidBitRange::ParseError)))
    );
    let c = tree("<field><bitRange>[4:7]</bitRange></field>");
    assert_eq!(
        BitRange::parse(&c),
        Err(plain(SVDErrorKind::InvalidBitRange(c.clone(), InvalidBitRange::MsbLsb)))
    );
    let d = tree("<field><lsb>0</lsb><msb>0xFFFFFFFF</msb></field>");
    assert_eq!(
        BitRange::parse(&d),
        Err(plain(SVDErrorKind::InvalidBitRange(d.clone(), InvalidBitRange::MsbLsb)))
    );
    let e = tree("<field><bitOffset>3</bitOffset></field>");
    assert_eq!(
        BitRange::parse(&e),
        Err(plain(SVDErrorKind::InvalidBitRange(e.clone(), InvalidBitRange::Syntax)))
    );
    let f = tree("<field><lsb>3</lsb></field>");
    assert_eq!(
        BitRange::parse(&f),
        Err(plain(SVDErrorKind::InvalidBitRange(f.clone(), InvalidBitRange::Syntax)))
    );
    let g = tree("<field><bitRange></bitRange></field>");
    assert_eq!(
        BitRange::parse(&g),
        Err(plain(SVDErrorKind::EmptyTag(leaf("bitRange", None), "bitRange".to_string())))
    );
    let h = tree("<field><lsb>x</lsb><msb>1</msb></field>");
    assert_eq!(BitRange::parse(&h), Err(plain(SVDErrorKind::InvalidNumber("x".to_string()))));
}

#[test]
fn write_constraints() {
    let a = tree("<writeConstraint><writeAsRead>true</writeAsRead></writeConstraint>");
    assert_eq!(WriteConstraint::parse(&a), Ok(WriteConstraint::WriteAsRead(true)));
    let b = tree(
        "<writeConstraint><useEnumeratedValues>0</useEnumeratedValues></writeConstraint>",
    );
    assert_eq!(WriteConstraint::parse(&b), Ok(WriteConstraint::UseEnumeratedValues(false)));
    let c = tree(
        "<writeConstraint><range><minimum>1</minimum><maximum>0x10</maximum></range></writeConstraint>",
    );
    assert_eq!(
        WriteConstraint::parse(&c),
        Ok(WriteConstraint::Range(WriteConstraintRange { min: 1, max: 16 }))
    );
    let d = tree("<writeConstraint><other>1</other></writeConstraint>");
    assert_eq!(
        WriteConstraint::parse(&d),
        Err(plain(SVDErrorKind::UnknownWriteConstraint(d.clone())))
    );
    let e = tree("<writeConstraint><writeAsRead>1</writeAsRead><range/></writeConstraint>");
    assert_eq!(
        WriteConstraint::parse(&e),
        Err(plain(SVDErrorKind::MoreThanOneWriteConstraint(e.clone())))
    );
    let f = tree("<writeConstraint/>");
    assert_eq!(
        WriteConstraint::parse(&f),
        Err(plain(SVDErrorKind::MoreThanOneWriteConstraint(f.clone())))
    );
    let g = tree("<r><writeConstraint><writeAsRead>1</writeAsRead></writeConstraint></r>");
    assert_eq!(WriteConstraint::parse_child(&g), Ok(Some(WriteConstraint::WriteAsRead(true))));
    assert_eq!(WriteConstraint::parse_child(&tree("<r/>")), Ok(None));
}

#[test]
fn interrupt_record() {
    let a = tree(
        "<interrupt><name>TIM2</name><description>Timer 2</description><value>28</value></interrupt>",
    );
    assert_eq!(
        Interrupt::parse(&a),
        Ok(Interrupt {
            name: "TIM2".to_string(),
            description: Some("Timer 2".to_string()),
            value: 28,
        })
    );
    let b = tree("<interrupt><name>TIM2</name></interrupt>");
    assert_eq!(
        Interrupt::parse(&b),
        Err(plain(SVDErrorKind::MissingTag(b.clone(), "value".to_string())))
    );
    let c = Interrupt { name: "A".to_string(), description: None, value: 1 };
    assert_eq!(c.clone(), c);
}

#[test]
fn cpu_record() {
    let a = tree(
        "<cpu><name>CM4</name><revision>r0p1</revision><endian>little</endian>\
         <mpuPresent>true</mpuPresent><fpuPresent>false</fpuPresent>\
         <nvicPrioBits>4</nvicPrioBits><vendorSystickConfig>0</vendorSystickConfig></cpu>",
    );
    let cpu = Cpu::parse(&a).expect("a processor");
    assert_eq!(
        cpu,
        Cpu {
            name: "CM4".to_string(),
            revision: "r0p1".to_string(),
            endian: Endian::Little,
            mpu_present: true,
            fpu_present: false,
            nvic_priority_bits: 4,
            has_vendor_systick: false,
        }
    );
    assert!(cpu.is_cortex_m());
    assert_eq!(cpu.clone(), cpu);
    let other = Cpu { name: "ARM9".to_string(), ..cpu };
    assert!(!other.is_cortex_m());
    let b = tree("<processor/>");
    assert_eq!(
        Cpu::parse(&b),
        Err(plain(SVDErrorKind::NotExpectedTag(b.clone(), "cpu".to_string())))
    );
    let c = tree("<cpu><name>CM4</name><revision>r0p1</revision></cpu>");
    assert_eq!(
        Cpu::parse(&c),
        Err(plain(SVDErrorKind::MissingTag(c.clone(), "endian".to_string())))
    );
}

#[test]
fn enumerated_value_record() {
    let a = tree(
        "<enumeratedValue><name>ON</name><description>enabled</description>\
         <value>1</value><isDefault>true</isDefault></enumeratedValue>",
    );
    assert_eq!(
        EnumeratedValue::parse(&a),
        Ok(EnumeratedValue {
            name: "ON".to_string(),
            description: Some("enabled".to_string()),
            value: Some(1),
            is_default: Some(true),
        })
    );
    let b = tree("<enumeratedValue><name>X</name></enumeratedValue>");
    assert_eq!(
        EnumeratedValue::parse(&b),
        Ok(EnumeratedValue {
            name: "X".to_string(),
            description: None,
            value: None,
            is_default: None,
        })
    );
    let c = tree("<enumeratedValue><name>X</name><value>q</value></enumeratedValue>");
    assert_eq!(
        EnumeratedValue::parse(&c),
        Err(SVDError {
            kind: SVDErrorKind::InvalidNumber("q".to_string()),
            context: vec!["In enumerated value `X`".to_string()],
        })
    );
    let d = tree("<value><name>X</name></value>");
    assert_eq!(
        EnumeratedValue::parse(&d),
        Err(plain(SVDErrorKind::NotExpectedTag(d.clone(), "enumeratedValue".to_string())))
    );
}

#[test]
fn enumerated_values_table() {
    let a = tree(
        "<enumeratedValues derivedFrom=\"base\"><name>mode</name><usage>read</usage>\
         <enumeratedValue><name>A</name><value>0</value></enumeratedValue>\
         <enumeratedValue><name>B</name><value>1</value></enumeratedValue>\
         </enumeratedValues>",
    );
    assert_eq!(
        EnumeratedValues::parse(&a),
        Ok(EnumeratedValues {
            name: Some("mode".to_string()),
            usage: Some(Usage::Read),
            derived_from: Some("base".to_string()),
            values: vec![
                EnumeratedValue {
                    name: "A".to_string(),
                    description: None,
                    value: Some(0),
                    is_default: None,
                },
                EnumeratedValue {
                    name: "B".to_string(),
                    description: None,
                    value: Some(1),
                    is_default: None,
                },
            ],
        })
    );
    let empty = tree("<enumeratedValues/>");
    assert_eq!(
        EnumeratedValues::parse(&empty),
        Ok(EnumeratedValues { name: None, usage: None, derived_from: None, values: vec![] })
    );
}

#[test]
fn enumerated_values_failures() {
    let a = tree(
        "<enumeratedValues><name>mode</name>\
         <enumeratedValue><name>A</name></enumeratedValue>\
         <enumeratedValue><name>B</name><value>?</value></enumeratedValue>\
         </enumeratedValues>",
    );
    assert_eq!(
        EnumeratedValues::parse(&a),
        Err(SVDError {
            kind: SVDErrorKind::InvalidNumber("?".to_string()),
            context: vec![
                "In enumerated value `B`".to_string(),
                "Parsing enumerated value #1".to_string(),
            ],
        })
    );
    let b = tree("<enumeratedValues><stray>1</stray></enumeratedValues>");
    assert_eq!(
        EnumeratedValues::parse(&b),
        Err(plain(SVDErrorKind::NotExpectedTag(
            leaf("stray", Some("1")),
            "enumeratedValue".to_string()
        )))
    );
    let c = tree("<values/>");
    assert_eq!(
        EnumeratedValues::parse(&c),
        Err(plain(SVDErrorKind::NotExpectedTag(c.clone(), "enumeratedValues".to_string())))
    );
    let d = tree("<enumeratedValues><usage>sometimes</usage></enumeratedValues>");
    assert_eq!(
        EnumeratedValues::parse(&d),
        Err(plain(SVDErrorKind::UnknownUsageVariant(leaf("usage", Some("sometimes")))))
    );
}
