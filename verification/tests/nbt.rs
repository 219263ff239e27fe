use rimecraft::nbt::{string, NbtCompound, NbtElement, NbtError, NbtTagSizeTracker, NbtType};

#[test]
fn type_codes() {
    assert_eq!(NbtElement::End.get_type(), 0);
    assert_eq!(NbtElement::U8(1).get_type(), 1);
    assert_eq!(NbtElement::I16(1).get_type(), 2);
    assert_eq!(NbtElement::I32(1).get_type(), 3);
    assert_eq!(NbtElement::I64(1).get_type(), 4);
    assert_eq!(NbtElement::F32(0).get_type(), 5);
    assert_eq!(NbtElement::F64(0).get_type(), 6);
    assert_eq!(NbtElement::U8Vec(vec![]).get_type(), 7);
    assert_eq!(NbtElement::String(vec![]).get_type(), 8);
    assert_eq!(NbtElement::List(vec![], 1).get_type(), 9);
    assert_eq!(NbtElement::Compound(NbtCompound::new()).get_type(), 10);
    assert_eq!(NbtElement::I32Vec(vec![]).get_type(), 11);
    assert_eq!(NbtElement::I64Vec(vec![]).get_type(), 12);
}

#[test]
fn nbt_types_of_elements() {
    assert_eq!(NbtElement::U8(3).get_nbt_type(), NbtType::U8);
    assert_eq!(NbtElement::String(vec![b'a']).get_nbt_type(), NbtType::String);
}

#[test]
fn element_sizes() {
    assert_eq!(NbtElement::String(vec![b'h', b'i']).get_size_in_bytes(), 40);
    assert_eq!(NbtElement::U8(0).get_size_in_bytes(), 9);
    assert_eq!(NbtElement::I16(0).get_size_in_bytes(), 10);
}

#[test]
fn type_names() {
    assert_eq!(NbtType::String.get_crash_report_name(), "STRING");
    assert_eq!(NbtType::I64.get_crash_report_name(), "LONG");
    assert_eq!(NbtType::U8Vec.get_crash_report_name(), "BYTE[]");
    assert_eq!(NbtType::String.get_command_feedback_name(), "STAG_String");
    assert_eq!(NbtType::F64.get_command_feedback_name(), "TAG_Double");
}

#[test]
fn immutable_kinds() {
    assert!(NbtType::String.is_immutable());
    assert!(NbtType::U8.is_immutable());
    assert!(NbtType::I16.is_immutable());
    assert!(!NbtType::I32.is_immutable());
    assert!(!NbtType::Compound.is_immutable());
}

#[test]
fn fixed_sizes() {
    assert_eq!(NbtType::U8.get_size_in_bytes(), Some(1));
    assert_eq!(NbtType::I16.get_size_in_bytes(), Some(2));
    assert_eq!(NbtType::I32.get_size_in_bytes(), Some(4));
    assert_eq!(NbtType::I64.get_size_in_bytes(), Some(8));
    assert_eq!(NbtType::F32.get_size_in_bytes(), Some(4));
    assert_eq!(NbtType::F64.get_size_in_bytes(), Some(8));
    assert_eq!(NbtType::String.get_size_in_bytes(), None);
}

#[test]
fn tracker_saturates() {
    let mut tracker = NbtTagSizeTracker::new(100);
    tracker.add(60);
    assert_eq!(tracker.get_allocated_bytes(), 60);
    tracker.add(60);
    assert_eq!(tracker.get_allocated_bytes(), 100);
}

#[test]
fn tracker_disabled_with_zero_ceiling() {
    let mut tracker = NbtTagSizeTracker::new(0);
    tracker.add(1000);
    assert_eq!(tracker.get_allocated_bytes(), 0);
}

#[test]
fn read_i32_big_endian() {
    let input = [0x00u8, 0x00, 0x01, 0x02];
    let mut pos = 0usize;
    let mut tracker = NbtTagSizeTracker::new(1000);
    let e = NbtType::I32.read(&input, &mut pos, &mut tracker).unwrap();
    assert!(matches!(e, NbtElement::I32(258)));
    assert_eq!(pos, 4);
    assert_eq!(tracker.get_allocated_bytes(), 12);
}

#[test]
fn read_negative_i16() {
    let input = [0xFFu8, 0xFE];
    let mut pos = 0usize;
    let mut tracker = NbtTagSizeTracker::new(0);
    let e = NbtType::I16.read(&input, &mut pos, &mut tracker).unwrap();
    assert!(matches!(e, NbtElement::I16(-2)));
}

#[test]
fn read_u8_past_end_gives_zero() {
    let input: [u8; 0] = [];
    let mut pos = 0usize;
    let mut tracker = NbtTagSizeTracker::new(0);
    let e = NbtType::U8.read(&input, &mut pos, &mut tracker).unwrap();
    assert!(matches!(e, NbtElement::U8(0)));
    assert_eq!(pos, 0);
}

#[test]
fn read_string_takes_rest() {
    let input = [b'h', b'e', b'y'];
    let mut pos = 1usize;
    let mut tracker = NbtTagSizeTracker::new(1000);
    let e = NbtType::String.read(&input, &mut pos, &mut tracker).unwrap();
    match e {
        NbtElement::String(v) => assert_eq!(v, vec![b'e', b'y']),
        _ => panic!("expected a string element"),
    }
    assert_eq!(pos, 3);
    assert_eq!(tracker.get_allocated_bytes(), 40);
}

#[test]
fn read_u8_vec() {
    let input = [0x00u8, 0x00, 0x00, 0x02, 7, 9];
    let mut pos = 0usize;
    let mut tracker = NbtTagSizeTracker::new(1000);
    let e = NbtType::U8Vec.read(&input, &mut pos, &mut tracker).unwrap();
    match e {
        NbtElement::U8Vec(v) => assert_eq!(v, vec![7, 9]),
        _ => panic!("expected a byte array element"),
    }
    assert_eq!(pos, 6);
    assert_eq!(tracker.get_allocated_bytes(), 26);
}

#[test]
fn read_negative_length_is_error() {
    let input = [0xFFu8, 0xFF, 0xFF, 0xFF];
    let mut pos = 0usize;
    let mut tracker = NbtTagSizeTracker::new(1000);
    let r = NbtType::U8Vec.read(&input, &mut pos, &mut tracker);
    match r {
        Err(e) => assert_eq!(e, NbtError::NegativeLength),
        Ok(_) => panic!("a negative length must be rejected"),
    }
}

#[test]
fn read_i64_vec() {
    let mut input = vec![0x00u8, 0x00, 0x00, 0x01];
    input.extend_from_slice(&[0, 0, 0, 0, 0, 0, 1, 0]);
    let mut pos = 0usize;
    let mut tracker = NbtTagSizeTracker::new(0);
    let e = NbtType::I64Vec.read(&input, &mut pos, &mut tracker).unwrap();
    match e {
        NbtElement::I64Vec(v) => assert_eq!(v, vec![256]),
        _ => panic!("expected a long array element"),
    }
}

#[test]
fn write_round_trips_through_read() {
    let mut out: Vec<u8> = Vec::new();
    NbtElement::I32(-123456).write(&mut out);
    assert_eq!(out.len(), 4);
    let mut pos = 0usize;
    let mut tracker = NbtTagSizeTracker::new(0);
    let e = NbtType::I32.read(&out, &mut pos, &mut tracker).unwrap();
    assert!(matches!(e, NbtElement::I32(-123456)));

    let mut out64: Vec<u8> = Vec::new();
    NbtElement::I64(-98765432100).write(&mut out64);
    let mut pos64 = 0usize;
    let e64 = NbtType::I64.read(&out64, &mut pos64, &mut tracker).unwrap();
    assert!(matches!(e64, NbtElement::I64(-98765432100)));
}

#[test]
fn write_string_bytes() {
    let mut out: Vec<u8> = Vec::new();
    NbtElement::String(vec![b'o', b'k']).write(&mut out);
    assert_eq!(out, vec![b'o', b'k']);
}

#[test]
fn skip_fixed_sizes() {
    let input = [0u8; 16];
    let mut pos = 0usize;
    NbtType::I64.skip(&input, &mut pos);
    assert_eq!(pos, 8);
    NbtType::F32.skip(&input, &mut pos);
    assert_eq!(pos, 12);
}

#[test]
fn skip_string_reads_length_prefix_only() {
    let input = [0x00u8, 0x02, b'h', b'i'];
    let mut pos = 0usize;
    NbtType::String.skip(&input, &mut pos);
    assert_eq!(pos, 2);
}

#[test]
fn skip_byte_array_skips_payload() {
    let input = [0x00u8, 0x00, 0x00, 0x02, 5, 6, 7];
    let mut pos = 0usize;
    NbtType::U8Vec.skip(&input, &mut pos);
    assert_eq!(pos, 6);
}

#[test]
fn skip_counted_scalars() {
    let input = [0u8; 32];
    let mut pos = 0usize;
    NbtType::I32.skip_counted(&input, &mut pos, 3);
    assert_eq!(pos, 12);
}

#[test]
fn string_module_skip_passes_payload() {
    let input = [0x00u8, 0x02, b'h', b'i', b'!'];
    let mut pos = 0usize;
    string::skip(&input, &mut pos);
    assert_eq!(pos, 4);
}

#[test]
fn compound_put_and_get() {
    let mut c = NbtCompound::new();
    assert_eq!(c.get_size(), 0);
    assert!(c.put("a".to_string(), NbtElement::I32(1)).is_none());
    assert!(c.put("b".to_string(), NbtElement::U8(2)).is_none());
    assert_eq!(c.get_size(), 2);
    let old = c.put("a".to_string(), NbtElement::I32(9));
    assert!(matches!(old, Some(NbtElement::I32(1))));
    assert_eq!(c.get_size(), 2);
    assert!(c.get("a") == Some(&NbtElement::I32(9)));
    assert!(c.get("zzz").is_none());
    assert_eq!(c.get_keys(), vec!["a", "b"]);
}

#[test]
fn compound_typed_getters() {
    let mut c = NbtCompound::new();
    c.put("flag".to_string(), NbtElement::U8(1));
    c.put("num".to_string(), NbtElement::I32(-4));
    assert_eq!(c.get_bool("flag"), Some(true));
    assert_eq!(c.get_int("num"), Some(-4));
    assert_eq!(c.get_bool("num"), None);
    assert_eq!(c.get_int("missing"), None);
    c.insert_int("num".to_string(), -5);
    assert_eq!(c.get_int("num"), Some(-5));
}

#[test]
fn deep_element_equality() {
    let a = NbtElement::List(vec![NbtElement::I32(1), NbtElement::String(vec![b'x'])], 3);
    let b = NbtElement::List(vec![NbtElement::I32(1), NbtElement::String(vec![b'x'])], 3);
    let c = NbtElement::List(vec![NbtElement::I32(2), NbtElement::String(vec![b'x'])], 3);
    assert!(a == b);
    assert!(a != c);
    let mut m1 = NbtCompound::new();
    m1.put("k".to_string(), a.clone());
    let mut m2 = NbtCompound::new();
    m2.put("k".to_string(), b.clone());
    assert!(m1 == m2);
    m2.put("k2".to_string(), NbtElement::End);
    assert!(m1 != m2);
}

use rimecraft::nbt::scanner::{NbtScanner, ScannerResult};
use rimecraft::nbt::visitor::NbtElementVisitor;

struct RecordingScanner {
    verdict: ScannerResult,
    started: Vec<NbtType>,
    ints: Vec<i32>,
    strings: Vec<Vec<u8>>,
}

impl RecordingScanner {
    fn new(verdict: ScannerResult) -> Self {
        RecordingScanner { verdict, started: Vec::new(), ints: Vec::new(), strings: Vec::new() }
    }
}

impl NbtScanner for RecordingScanner {
    fn start(&mut self, kind: NbtType) -> ScannerResult {
        self.started.push(kind);
        self.verdict
    }

    fn visit_string(&mut self, value: &[u8]) -> ScannerResult {
        self.strings.push(value.to_vec());
        ScannerResult::Continue
    }

    fn visit_u8(&mut self, _value: u8) -> ScannerResult {
        ScannerResult::Continue
    }

    fn visit_i16(&mut self, _value: i16) -> ScannerResult {
        ScannerResult::Continue
    }

    fn visit_i32(&mut self, value: i32) -> ScannerResult {
        self.ints.push(value);
        ScannerResult::Continue
    }

    fn visit_i64(&mut self, _value: i64) -> ScannerResult {
        ScannerResult::Continue
    }

    fn visit_f32_bits(&mut self, _bits: u32) -> ScannerResult {
        ScannerResult::Continue
    }

    fn visit_f64_bits(&mut self, _bits: u64) -> ScannerResult {
        ScannerResult::Continue
    }
}

#[test]
fn type_accept_visits_on_continue() {
    let input = [0x00u8, 0x00, 0x00, 0x05];
    let mut pos = 0usize;
    let mut scanner = RecordingScanner::new(ScannerResult::Continue);
    NbtType::I32.accept(&input, &mut pos, &mut scanner);
    assert_eq!(scanner.started, vec![NbtType::I32]);
    assert_eq!(scanner.ints, vec![5]);
    assert_eq!(pos, 4);
}

#[test]
fn type_accept_skips_on_halt() {
    let input = [0x00u8, 0x00, 0x00, 0x05];
    let mut pos = 0usize;
    let mut scanner = RecordingScanner::new(ScannerResult::Halt);
    NbtType::I32.accept(&input, &mut pos, &mut scanner);
    assert!(scanner.ints.is_empty());
    assert_eq!(pos, 4);
}

#[test]
fn type_accept_stops_on_break() {
    let input = [0x00u8, 0x00, 0x00, 0x05];
    let mut pos = 0usize;
    let mut scanner = RecordingScanner::new(ScannerResult::Break);
    NbtType::I32.accept(&input, &mut pos, &mut scanner);
    assert!(scanner.ints.is_empty());
    assert_eq!(pos, 0);
}

#[test]
fn type_do_accept_hands_rest_to_string_visit() {
    let input = [b'a', b'b', b'c'];
    let mut pos = 1usize;
    let mut scanner = RecordingScanner::new(ScannerResult::Continue);
    let r = NbtType::String.do_accept(&input, &mut pos, &mut scanner);
    assert_eq!(r, ScannerResult::Continue);
    assert_eq!(scanner.strings, vec![vec![b'b', b'c']]);
    assert_eq!(pos, 3);
}

#[test]
fn element_do_accept_and_accept_scanner() {
    let mut scanner = RecordingScanner::new(ScannerResult::Continue);
    let r = NbtElement::I32(11).do_accept(&mut scanner);
    assert_eq!(r, ScannerResult::Continue);
    assert_eq!(scanner.ints, vec![11]);
    NbtElement::I32(12).accept_scanner(&mut scanner);
    assert_eq!(scanner.started, vec![NbtType::I32]);
    assert_eq!(scanner.ints, vec![11, 12]);
    // a scanner that breaks skips the payload visit
    let mut breaker = RecordingScanner::new(ScannerResult::Break);
    NbtElement::I32(13).accept_scanner(&mut breaker);
    assert!(breaker.ints.is_empty());
}

struct CountingVisitor {
    visits: usize,
}

impl NbtElementVisitor for CountingVisitor {
    fn visit(&mut self, _element: &NbtElement) {
        self.visits += 1;
    }
}

#[test]
fn element_accept_hands_itself_to_visitor() {
    let mut visitor = CountingVisitor { visits: 0 };
    NbtElement::U8(1).accept(&mut visitor);
    NbtElement::End.accept(&mut visitor);
    assert_eq!(visitor.visits, 2);
}
