use legion_prof::decode::{
    parse_copy_inst_info, parse_index_space_point_desc, parse_index_space_rect_desc,
    parse_machine_desc, parse_meta_desc, parse_payload, parse_task_info, parse_task_kind,
    parse_zero_time,
};
use legion_prof::header::parse_header;
use legion_prof::registry::{lookup_id, required_kind, KINDS};
use legion_prof::{
    decode_payload, deserialize, filter_record, is_on_visible_nodes, parse, parse_record, Array,
    Context, DeserializeError, EventID, FieldID, FormatError, ISpaceID, InstUID, MemID, NodeID,
    OpID, Point, ProcID, Record, RecordKind, Registry, TaskID, Timestamp, VariantID,
};
use std::io::Write;

/// A header that declares every record kind; kind number `i` of the binding
/// order gets the tag `tag_of(i)`.
fn header_with(tag_of: fn(usize) -> u32) -> Vec<u8> {
    let mut text = String::from("FileType: BinaryLegionProf v: 1.0\n");
    for i in 0..KINDS {
        text.push_str(&format!("{} {{id:{}, a:unsigned:4}}\n", required_kind(i).label(), tag_of(i)));
    }
    text.push('\n');
    text.into_bytes()
}

fn plain(i: usize) -> u32 {
    i as u32
}

fn zero_time_first(i: usize) -> u32 {
    if i == 6 {
        0
    } else {
        i as u32 + 100
    }
}

fn put32(bytes: &mut Vec<u8>, v: u32) {
    bytes.extend_from_slice(&v.to_le_bytes());
}

fn put64(bytes: &mut Vec<u8>, v: u64) {
    bytes.extend_from_slice(&v.to_le_bytes());
}

fn on_node(node: u64, index: u64) -> u64 {
    (0x1du64 << 56) | (node << 40) | index
}

fn machine_desc(bytes: &mut Vec<u8>, node: u32) {
    put32(bytes, 5);
    put32(bytes, node);
    put32(bytes, 4);
}

fn proc_desc(bytes: &mut Vec<u8>, proc_id: u64) {
    put32(bytes, 7);
    put64(bytes, proc_id);
    put32(bytes, 2);
}

fn task_info(bytes: &mut Vec<u8>, proc_id: u64) {
    put32(bytes, 32);
    put64(bytes, 11);
    put32(bytes, 12);
    put32(bytes, 13);
    put64(bytes, proc_id);
    put64(bytes, 1);
    put64(bytes, 2);
    put64(bytes, 3);
    put64(bytes, 4);
    put64(bytes, 99);
}

fn copy_inst_info(bytes: &mut Vec<u8>, src: u64, dst: u64) {
    put32(bytes, 36);
    put64(bytes, src);
    put64(bytes, dst);
    put32(bytes, 1);
    put32(bytes, 2);
    put64(bytes, 3);
    put64(bytes, 4);
    put64(bytes, 5);
    put32(bytes, 6);
    bytes.push(1);
}

fn task_info_record(proc_id: u64) -> Record {
    Record::TaskInfo {
        op_id: OpID(11),
        task_id: TaskID(12),
        variant_id: VariantID(13),
        proc_id: ProcID(proc_id),
        create: Timestamp(1),
        ready: Timestamp(2),
        start: Timestamp(3),
        stop: Timestamp(4),
        fevent: EventID(99),
    }
}

fn copy_inst_record(src: u64, dst: u64) -> Record {
    Record::CopyInstInfo {
        src: MemID(src),
        dst: MemID(dst),
        src_fid: FieldID(1),
        dst_fid: FieldID(2),
        src_inst: InstUID(3),
        dst_inst: InstUID(4),
        fevent: EventID(5),
        num_hops: 6,
        indirect: true,
    }
}

fn gzip(bytes: &[u8]) -> Vec<u8> {
    let mut encoder = flate2::write::GzEncoder::new(Vec::new(), flate2::Compression::default());
    encoder.write_all(bytes).unwrap();
    encoder.finish().unwrap()
}

#[test]
fn binding_order_starts_and_ends_as_declared() {
    assert_eq!(KINDS, 44);
    assert_eq!(required_kind(0), RecordKind::MapperCallDesc);
    assert_eq!(required_kind(6), RecordKind::ZeroTime);
    assert_eq!(required_kind(9).label(), "ProcMDesc");
    assert_eq!(required_kind(23).label(), "PhysicalInstDimOrderDesc");
    assert_eq!(required_kind(43), RecordKind::ProfTaskInfo);
    for i in 0..KINDS {
        for j in 0..i {
            assert_ne!(required_kind(i), required_kind(j));
        }
    }
}

#[test]
fn zero_time_payload() {
    let bytes = 1234i64.to_le_bytes();
    assert_eq!(parse_zero_time(&bytes, 0, -1), Ok((Record::ZeroTime { zero_time: 1234 }, 8)));
    assert_eq!(parse_zero_time(&bytes[..7], 0, -1), Err(FormatError::ShortRead));
}

#[test]
fn machine_desc_widens_the_node() {
    let mut bytes = Vec::new();
    put32(&mut bytes, 0xffff_ffff);
    put32(&mut bytes, 16);
    assert_eq!(
        parse_machine_desc(&bytes, 0, -1),
        Ok((Record::MachineDesc { node_id: NodeID(0xffff_ffff), num_nodes: 16 }, 8))
    );
}

#[test]
fn task_info_payload_in_field_order() {
    let mut bytes = vec![0xee];
    task_info(&mut bytes, 77);
    assert_eq!(parse_task_info(&bytes, 5, 0), Ok((task_info_record(77), 69)));
    assert_eq!(parse_task_info(&bytes[..68], 5, 0), Err(FormatError::ShortRead));
    assert_eq!(parse_payload(RecordKind::TaskInfo, &bytes, 5, 0), Ok((task_info_record(77), 69)));
}

#[test]
fn meta_desc_ends_with_its_name() {
    let mut bytes = Vec::new();
    put32(&mut bytes, 3);
    bytes.push(0);
    bytes.push(2);
    bytes.extend_from_slice(b"meta\0");
    bytes.push(0xaa);
    assert_eq!(
        parse_meta_desc(&bytes, 0, -1),
        Ok((
            Record::MetaDesc {
                kind: VariantID(3),
                message: false,
                ordered_vc: true,
                name: String::from("meta"),
            },
            11
        ))
    );
    assert_eq!(parse_meta_desc(&bytes[..10], 0, -1), Err(FormatError::ShortRead));
    bytes[7] = 0xff;
    assert_eq!(parse_meta_desc(&bytes, 0, -1), Err(FormatError::BadUtf8));
}

#[test]
fn task_kind_has_a_flag_after_its_name() {
    let mut bytes = Vec::new();
    put32(&mut bytes, 8);
    bytes.extend_from_slice(b"top\0");
    bytes.push(1);
    assert_eq!(
        parse_task_kind(&bytes, 0, -1),
        Ok((Record::TaskKind { task_id: TaskID(8), name: String::from("top"), overwrite: true }, 9))
    );
    assert_eq!(parse_task_kind(&bytes[..8], 0, -1), Err(FormatError::ShortRead));
}

#[test]
fn index_space_records_follow_the_dimensionality() {
    let mut bytes = Vec::new();
    put64(&mut bytes, 5);
    put32(&mut bytes, 3);
    for v in 1..=6u64 {
        put64(&mut bytes, v);
    }
    assert_eq!(
        parse_index_space_rect_desc(&bytes, 0, 3),
        Ok((
            Record::IndexSpaceRectDesc {
                ispace_id: ISpaceID(5),
                dim: 3,
                rem: Array(vec![1, 2, 3, 4, 5, 6]),
            },
            60
        ))
    );
    assert_eq!(
        parse_index_space_point_desc(&bytes, 0, 3),
        Ok((Record::IndexSpacePointDesc { ispace_id: ISpaceID(5), dim: 3, rem: Point(vec![1, 2, 3]) }, 36))
    );
    assert_eq!(
        parse_index_space_point_desc(&bytes, 0, 0),
        Ok((Record::IndexSpacePointDesc { ispace_id: ISpaceID(5), dim: 3, rem: Point(vec![]) }, 12))
    );
    assert_eq!(parse_index_space_rect_desc(&bytes, 0, 4), Err(FormatError::ShortRead));
    assert_eq!(parse_index_space_rect_desc(&bytes, 0, -1), Err(FormatError::DimensionUnknown));
    assert_eq!(parse_index_space_rect_desc(&bytes[..11], 0, -1), Err(FormatError::ShortRead));
}

#[test]
fn copy_inst_info_payload() {
    let mut bytes = Vec::new();
    copy_inst_info(&mut bytes, 21, 22);
    assert_eq!(parse_copy_inst_info(&bytes, 4, -1), Ok((copy_inst_record(21, 22), 57)));
    assert_eq!(parse_copy_inst_info(&bytes[..56], 4, -1), Err(FormatError::ShortRead));
}

#[test]
fn registry_needs_every_kind() {
    let (formats, _) = parse_header(&header_with(plain)).unwrap();
    let registry = Registry::build(&formats).unwrap();
    assert_eq!(registry.tags, (0..44).collect::<Vec<u32>>());
    for i in 0..KINDS {
        let mut fewer = formats.clone();
        fewer.remove(i);
        assert_eq!(Registry::build(&fewer), Err(FormatError::MissingFormat));
    }
}

#[test]
fn registry_ignores_other_names_and_takes_last_declaration() {
    let mut text = header_with(plain);
    text.pop();
    text.extend_from_slice(b"Unheard {id:7, a:bool:1}\nZeroTime {id:500, a:bool:1}\n\n");
    let (formats, _) = parse_header(&text).unwrap();
    assert_eq!(lookup_id(&formats, "ZeroTime"), Some(500));
    assert_eq!(lookup_id(&formats, "Unheard"), Some(7));
    assert_eq!(lookup_id(&formats, "zerotime"), None);
    let registry = Registry::build(&formats).unwrap();
    assert_eq!(registry.tags[6], 500);
    assert_eq!(registry.kind_of(500), Some(RecordKind::ZeroTime));
    assert_eq!(registry.kind_of(6), None);
    assert_eq!(registry.kind_of(7), Some(RecordKind::ProcDesc));
}

#[test]
fn tag_shared_by_two_kinds_goes_to_the_later_one() {
    fn shared(i: usize) -> u32 {
        if i == 4 || i == 6 {
            1000
        } else {
            i as u32
        }
    }
    let (formats, _) = parse_header(&header_with(shared)).unwrap();
    let registry = Registry::build(&formats).unwrap();
    assert_eq!(registry.kind_of(1000), Some(RecordKind::ZeroTime));
    assert_eq!(registry.kind_of(4), None);
}

#[test]
fn record_is_tag_then_payload() {
    let (formats, _) = parse_header(&header_with(plain)).unwrap();
    let registry = Registry::build(&formats).unwrap();
    let mut bytes = Vec::new();
    put32(&mut bytes, 6);
    bytes.extend_from_slice(&(-5i64).to_le_bytes());
    assert_eq!(parse_record(&bytes, 0, &registry, -1), Ok((Record::ZeroTime { zero_time: -5 }, 12)));
    assert_eq!(parse_record(&bytes[..11], 0, &registry, -1), Err(FormatError::ShortRead));
    assert_eq!(parse_record(&bytes[..3], 0, &registry, -1), Err(FormatError::ShortRead));
    let mut unknown = Vec::new();
    put32(&mut unknown, 44);
    put64(&mut unknown, 0);
    assert_eq!(parse_record(&unknown, 0, &registry, -1), Err(FormatError::UnknownTag));
}

#[test]
fn end_to_end_zero_time() {
    let mut file = header_with(zero_time_first);
    put32(&mut file, 0);
    file.extend_from_slice(&1234i64.to_le_bytes());
    let nodes = vec![NodeID(0)];
    assert_eq!(decode_payload(&file, &nodes, false), Ok(vec![Record::ZeroTime { zero_time: 1234 }]));
    assert_eq!(
        deserialize(&gzip(&file), &nodes, false),
        Ok(vec![Record::ZeroTime { zero_time: 1234 }])
    );
}

#[test]
fn header_with_one_format_lacks_the_other_kinds() {
    let mut file = b"FileType: BinaryLegionProf v: 1.0\nZeroTime {id:0, zero_time:long long:8}\n\n".to_vec();
    put32(&mut file, 0);
    file.extend_from_slice(&1234i64.to_le_bytes());
    assert_eq!(decode_payload(&file, &vec![NodeID(0)], false), Err(FormatError::MissingFormat));
}

#[test]
fn every_record_is_returned_when_unfiltered() {
    let header = header_with(plain);
    let mut file = header.clone();
    machine_desc(&mut file, 1);
    proc_desc(&mut file, on_node(1, 0));
    task_info(&mut file, on_node(1, 0));
    task_info(&mut file, on_node(2, 0));
    copy_inst_info(&mut file, on_node(1, 0), on_node(2, 0));
    let nodes = vec![NodeID(9)];
    let records = decode_payload(&file, &nodes, false).unwrap();
    assert_eq!(records.len(), 5);
    assert_eq!(records[0], Record::MachineDesc { node_id: NodeID(1), num_nodes: 4 });
    assert_eq!(records[2], task_info_record(on_node(1, 0)));
    assert_eq!(records[3], task_info_record(on_node(2, 0)));
    assert_eq!(parse(&file, &nodes, false), Ok((file.len(), records)));
    assert_eq!(decode_payload(&header, &nodes, false), Ok(vec![]));
}

#[test]
fn stray_byte_after_last_record_fails() {
    let mut file = header_with(plain);
    machine_desc(&mut file, 1);
    task_info(&mut file, on_node(1, 0));
    let nodes = vec![NodeID(1)];
    assert_eq!(decode_payload(&file, &nodes, false).unwrap().len(), 2);
    let clean = file.len();
    file.push(0);
    assert_eq!(decode_payload(&file, &nodes, false), Err(FormatError::TrailingBytes));
    assert_eq!(decode_payload(&file, &nodes, true), Err(FormatError::TrailingBytes));
    let (stopped, records) = parse(&file, &nodes, false).unwrap();
    assert_eq!(stopped, clean);
    assert_eq!(records.len(), 2);
    assert_eq!(deserialize(&gzip(&file), &nodes, false), Err(DeserializeError::Format(FormatError::TrailingBytes)));
}

#[test]
fn truncated_record_fails() {
    let mut file = header_with(plain);
    task_info(&mut file, on_node(1, 0));
    file.pop();
    assert_eq!(decode_payload(&file, &vec![NodeID(1)], false), Err(FormatError::TrailingBytes));
}

#[test]
fn unknown_tag_in_body_fails() {
    let mut file = header_with(plain);
    machine_desc(&mut file, 1);
    put32(&mut file, 4000);
    put64(&mut file, 0);
    assert_eq!(decode_payload(&file, &vec![NodeID(1)], false), Err(FormatError::UnknownTag));
    assert_eq!(parse(&file, &vec![NodeID(1)], false), Err(FormatError::UnknownTag));
}

#[test]
fn composite_before_dimensionality_fails() {
    let mut rect = Vec::new();
    put32(&mut rect, 11);
    put64(&mut rect, 5);
    put32(&mut rect, 1);
    put64(&mut rect, 10);
    put64(&mut rect, 20);
    let mut early = header_with(plain);
    early.extend_from_slice(&rect);
    assert_eq!(decode_payload(&early, &vec![NodeID(1)], false), Err(FormatError::DimensionUnknown));
    let mut late = header_with(plain);
    put32(&mut late, 4);
    put32(&mut late, 1);
    late.extend_from_slice(&rect);
    assert_eq!(
        decode_payload(&late, &vec![NodeID(1)], false),
        Ok(vec![
            Record::MaxDimDesc { max_dim: 1 },
            Record::IndexSpaceRectDesc { ispace_id: ISpaceID(5), dim: 1, rem: Array(vec![10, 20]) },
        ])
    );
}

#[test]
fn state_is_set_by_the_first_control_record() {
    let start = Context::new();
    assert_eq!(start, Context { max_dim: None, node_id: None });
    assert_eq!(start.dimension(), -1);
    let a = start.advance(&Record::MachineDesc { node_id: NodeID(3), num_nodes: 8 });
    assert_eq!(a, Context { max_dim: None, node_id: Some(NodeID(3)) });
    let b = a.advance(&Record::MachineDesc { node_id: NodeID(4), num_nodes: 8 });
    assert_eq!(b, a);
    let c = b.advance(&Record::MaxDimDesc { max_dim: 2 });
    assert_eq!(c, Context { max_dim: Some(2), node_id: Some(NodeID(3)) });
    assert_eq!(c.dimension(), 2);
    assert_eq!(c.advance(&Record::MaxDimDesc { max_dim: 5 }), c);
    assert_eq!(c.advance(&Record::ZeroTime { zero_time: 1 }), c);
}

#[test]
fn filter_passes_a_local_file_through() {
    let mut file = header_with(plain);
    task_info(&mut file, on_node(2, 0));
    machine_desc(&mut file, 1);
    proc_desc(&mut file, on_node(2, 0));
    task_info(&mut file, on_node(2, 0));
    put32(&mut file, 6);
    put64(&mut file, 17);
    copy_inst_info(&mut file, on_node(2, 0), on_node(3, 0));
    let nodes = vec![NodeID(1)];
    let unfiltered = decode_payload(&file, &nodes, false).unwrap();
    assert_eq!(unfiltered.len(), 6);
    assert_eq!(decode_payload(&file, &nodes, true), Ok(unfiltered));
}

#[test]
fn filter_drops_what_belongs_to_other_nodes() {
    let a = 1u64;
    let b = 2u64;
    let mut file = header_with(plain);
    task_info(&mut file, on_node(b, 7));
    machine_desc(&mut file, b as u32);
    task_info(&mut file, on_node(b, 0));
    proc_desc(&mut file, on_node(b, 0));
    copy_inst_info(&mut file, on_node(b, 0), on_node(a, 0));
    copy_inst_info(&mut file, on_node(b, 0), on_node(b, 1));
    task_info(&mut file, on_node(a, 0));
    put32(&mut file, 6);
    put64(&mut file, 17);
    let nodes = vec![NodeID(a)];
    assert_eq!(decode_payload(&file, &nodes, false).unwrap().len(), 8);
    assert_eq!(
        decode_payload(&file, &nodes, true),
        Ok(vec![
            task_info_record(on_node(b, 7)),
            Record::ProcDesc { proc_id: ProcID(on_node(b, 0)), kind: 2 },
            copy_inst_record(on_node(b, 0), on_node(a, 0)),
            task_info_record(on_node(a, 0)),
        ])
    );
}

#[test]
fn filter_rule_by_kind() {
    let nodes = vec![NodeID(1), NodeID(5)];
    let other = Some(NodeID(2));
    let zero = Record::ZeroTime { zero_time: 0 };
    assert!(filter_record(&zero, &nodes, None));
    assert!(filter_record(&zero, &nodes, Some(NodeID(5))));
    assert!(!filter_record(&zero, &nodes, other));
    assert!(!filter_record(&Record::MachineDesc { node_id: NodeID(2), num_nodes: 3 }, &nodes, other));
    assert!(filter_record(&Record::MemDesc { mem_id: MemID(on_node(2, 0)), kind: 0, capacity: 1 }, &nodes, other));
    assert!(filter_record(
        &Record::ProcMDesc { proc_id: ProcID(on_node(2, 0)), mem_id: MemID(on_node(2, 0)), bandwidth: 1, latency: 1 },
        &nodes,
        other
    ));
    let span = |op: u64| Record::FillInfo {
        op_id: OpID(op),
        size: 1,
        create: Timestamp(1),
        ready: Timestamp(2),
        start: Timestamp(3),
        stop: Timestamp(4),
        fevent: EventID(5),
    };
    assert!(filter_record(&span(1), &nodes, other));
    assert!(filter_record(
        &Record::PartitionInfo {
            op_id: OpID(1),
            part_op: 0,
            create: Timestamp(1),
            ready: Timestamp(2),
            start: Timestamp(3),
            stop: Timestamp(4),
        },
        &nodes,
        other
    ));
    let fill = |dst: u64| Record::FillInstInfo {
        dst: MemID(dst),
        fid: FieldID(0),
        dst_inst: InstUID(0),
        fevent: EventID(0),
    };
    assert!(filter_record(&fill(on_node(5, 0)), &nodes, other));
    assert!(!filter_record(&fill(on_node(2, 0)), &nodes, other));
    let timeline = |mem: u64| Record::InstTimelineInfo {
        inst_uid: InstUID(0),
        inst_id: legion_prof::InstID(0),
        mem_id: MemID(mem),
        size: 0,
        op_id: OpID(0),
        create: Timestamp(0),
        ready: Timestamp(0),
        destroy: Timestamp(0),
    };
    assert!(filter_record(&timeline(on_node(1, 0)), &nodes, other));
    assert!(!filter_record(&timeline(on_node(3, 0)), &nodes, other));
    assert!(filter_record(&copy_inst_record(on_node(5, 0), on_node(2, 0)), &nodes, other));
    assert!(filter_record(&copy_inst_record(on_node(2, 0), on_node(1, 0)), &nodes, other));
    assert!(!filter_record(&copy_inst_record(on_node(2, 0), on_node(3, 0)), &nodes, other));
    assert!(filter_record(&task_info_record(on_node(1, 0)), &nodes, other));
    assert!(!filter_record(&task_info_record(on_node(2, 0)), &nodes, other));
    let prof = Record::ProfTaskInfo {
        proc_id: ProcID(on_node(1, 0)),
        op_id: OpID(0),
        start: Timestamp(0),
        stop: Timestamp(0),
        fevent: EventID(0),
    };
    assert!(!filter_record(&prof, &nodes, other));
    assert!(filter_record(&prof, &nodes, Some(NodeID(1))));
}

#[test]
fn visible_nodes_are_those_listed() {
    let nodes = vec![NodeID(1), NodeID(5)];
    assert!(is_on_visible_nodes(&nodes, NodeID(5)));
    assert!(!is_on_visible_nodes(&nodes, NodeID(0)));
    assert!(!is_on_visible_nodes(&vec![], NodeID(0)));
}

#[test]
fn container_must_be_gzip() {
    let nodes = vec![NodeID(0)];
    let file = header_with(plain);
    assert_eq!(deserialize(&file, &nodes, false), Err(DeserializeError::Container));
    assert_eq!(deserialize(&[], &nodes, false), Err(DeserializeError::Container));
    let packed = gzip(&file);
    assert_ne!(packed, file);
    assert_eq!(deserialize(&packed, &nodes, false), Ok(vec![]));
    assert_eq!(deserialize(&packed[..packed.len() / 2], &nodes, false), Err(DeserializeError::Container));
}

#[test]
fn payload_errors_come_through_the_container() {
    let nodes = vec![NodeID(0)];
    let bad = b"FileType: BinaryLegionProf v: 2.0\nZeroTime {id:0, zero_time:long long:8}\n\n";
    assert_eq!(deserialize(&gzip(bad), &nodes, false), Err(DeserializeError::Format(FormatError::BadVersion)));
    assert_eq!(decode_payload(bad, &nodes, false), Err(FormatError::BadVersion));
    assert_eq!(decode_payload(b"garbage", &nodes, false), Err(FormatError::BadGrammar));
}
