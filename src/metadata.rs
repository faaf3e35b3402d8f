use vstd::prelude::*;
use vstd::string::*;
use crate::text::{
    chars_of, find_last, line_spans, lines_of, last_index_of, lemma_last_index_of_range, parse_decimal,
    parse_decimal_span, parse_seconds_as_millis, parse_seconds_span, span_equals,
};

verus! {

/// One line of an isolator metadata file, read.
#[derive(Debug)]
pub enum MetadataEntry {
    Memory(u32),
    ExitCode(u32),
    ExitSignal(u32),
    Message(String),
    Status(String),
    CpuTime(u32),
    WallTime(u32),
    Ignored,
}

/// What a metadata line holds, over character sequences.
pub enum EntryView {
    Memory(u32),
    ExitCode(u32),
    ExitSignal(u32),
    Message(Seq<char>),
    Status(Seq<char>),
    CpuTime(u32),
    WallTime(u32),
    Ignored,
}

impl View for MetadataEntry {
    type V = EntryView;

    open spec fn view(&self) -> EntryView {
        match self {
            MetadataEntry::Memory(v) => EntryView::Memory(*v),
            MetadataEntry::ExitCode(v) => EntryView::ExitCode(*v),
            MetadataEntry::ExitSignal(v) => EntryView::ExitSignal(*v),
            MetadataEntry::Message(s) => EntryView::Message(s@),
            MetadataEntry::Status(s) => EntryView::Status(s@),
            MetadataEntry::CpuTime(v) => EntryView::CpuTime(*v),
            MetadataEntry::WallTime(v) => EntryView::WallTime(*v),
            MetadataEntry::Ignored => EntryView::Ignored,
        }
    }
}

/// The key of a metadata line: the text between the colon before the last
/// colon (or the start) and the last colon; none without a colon.
pub open spec fn metadata_key(line: Seq<char>) -> Option<Seq<char>> {
    let k = last_index_of(line, ':');
    if k < 0 {
        None
    } else {
        Some(line.subrange(last_index_of(line.take(k), ':') + 1, k))
    }
}

/// The value of a metadata line: the text after its last colon (the whole
/// line without one).
pub open spec fn metadata_value(line: Seq<char>) -> Seq<char> {
    line.skip(last_index_of(line, ':') + 1)
}

/// A number read into `make`, or nothing where the value does not parse.
pub open spec fn numeric_entry(v: Option<u32>, make: spec_fn(u32) -> EntryView) -> EntryView {
    match v {
        Some(n) => make(n),
        None => EntryView::Ignored,
    }
}

/// What one metadata line holds: a recognised key with a value that reads,
/// or nothing.
pub open spec fn metadata_entry(line: Seq<char>) -> EntryView {
    let value = metadata_value(line);
    match metadata_key(line) {
        None => EntryView::Ignored,
        Some(key) => if key == "cg-mem"@ {
            numeric_entry(parse_decimal(value), |n| EntryView::Memory(n))
        } else if key == "exitcode"@ {
            numeric_entry(parse_decimal(value), |n| EntryView::ExitCode(n))
        } else if key == "exitsig"@ {
            numeric_entry(parse_decimal(value), |n| EntryView::ExitSignal(n))
        } else if key == "message"@ {
            EntryView::Message(value)
        } else if key == "status"@ {
            EntryView::Status(value)
        } else if key == "time"@ {
            numeric_entry(parse_seconds_as_millis(value), |n| EntryView::CpuTime(n))
        } else if key == "time-wall"@ {
            numeric_entry(parse_seconds_as_millis(value), |n| EntryView::WallTime(n))
        } else {
            EntryView::Ignored
        },
    }
}

/// Splits a metadata line at its last colon into key and value; the key is
/// missing where the line has no colon.
pub fn split_metadata_line(line: &str) -> (r: (Result<&str, ()>, Result<&str, ()>))
    ensures
        match metadata_key(line@) {
            Some(k) => r.0 is Ok && r.0->Ok_0@ == k,
            None => r.0 is Err,
        },
        r.1 is Ok,
        r.1->Ok_0@ == metadata_value(line@),
{
    let chars = chars_of(line);
    let n = chars.len();
    let last = find_last(&chars, n, ':');
    assert(chars@.take(n as int) =~= line@);
    match last {
        None => {
            assert(line@.skip(0) =~= line@);
            (Err(()), Ok(line))
        },
        Some(k) => {
            proof {
                lemma_last_index_of_range(line@, ':');
                lemma_last_index_of_range(line@.take(k as int), ':');
            }
            let before = find_last(&chars, k, ':');
            let key_start = match before {
                Some(p) => p + 1,
                None => 0,
            };
            (Ok(line.substring_char(key_start, k)), Ok(line.substring_char(k + 1, n)))
        },
    }
}

/// Reads one line of a metadata file. Total: a line that is not understood
/// is ignored.
pub fn parse_metadata_line(line: &str) -> (r: MetadataEntry)
    ensures
        r@ == metadata_entry(line@),
{
    let chars = chars_of(line);
    let n = chars.len();
    let last = find_last(&chars, n, ':');
    assert(chars@.take(n as int) =~= line@);
    let k = match last {
        None => return MetadataEntry::Ignored,
        Some(k) => k,
    };
    proof {
        lemma_last_index_of_range(line@, ':');
        lemma_last_index_of_range(line@.take(k as int), ':');
    }
    let before = find_last(&chars, k, ':');
    let key_start = match before {
        Some(p) => p + 1,
        None => 0,
    };
    let vs = k + 1;
    assert(chars@.subrange(vs as int, n as int) =~= metadata_value(line@));
    if span_equals(&chars, key_start, k, &chars_of("cg-mem")) {
        match parse_decimal_span(&chars, vs, n) {
            Some(v) => MetadataEntry::Memory(v),
            None => MetadataEntry::Ignored,
        }
    } else if span_equals(&chars, key_start, k, &chars_of("exitcode")) {
        match parse_decimal_span(&chars, vs, n) {
            Some(v) => MetadataEntry::ExitCode(v),
            None => MetadataEntry::Ignored,
        }
    } else if span_equals(&chars, key_start, k, &chars_of("exitsig")) {
        match parse_decimal_span(&chars, vs, n) {
            Some(v) => MetadataEntry::ExitSignal(v),
            None => MetadataEntry::Ignored,
        }
    } else if span_equals(&chars, key_start, k, &chars_of("message")) {
        MetadataEntry::Message(String::from_str(line.substring_char(vs, n)))
    } else if span_equals(&chars, key_start, k, &chars_of("status")) {
        MetadataEntry::Status(String::from_str(line.substring_char(vs, n)))
    } else if span_equals(&chars, key_start, k, &chars_of("time")) {
        match parse_seconds_span(&chars, vs, n) {
            Some(v) => MetadataEntry::CpuTime(v),
            None => MetadataEntry::Ignored,
        }
    } else if span_equals(&chars, key_start, k, &chars_of("time-wall")) {
        match parse_seconds_span(&chars, vs, n) {
            Some(v) => MetadataEntry::WallTime(v),
            None => MetadataEntry::Ignored,
        }
    } else {
        MetadataEntry::Ignored
    }
}

/// What the isolator reported of a run; a later line wins over an earlier
/// one with the same key.
#[derive(Debug)]
pub struct StageMetadata {
    pub memory: Option<u32>,
    pub exit_code: Option<u32>,
    pub exit_signal: Option<u32>,
    pub exit_message: Option<String>,
    pub exit_status: Option<String>,
    pub cpu_time: Option<u32>,
    pub wall_time: Option<u32>,
}

/// `StageMetadata` over character sequences.
pub struct MetadataView {
    pub memory: Option<u32>,
    pub exit_code: Option<u32>,
    pub exit_signal: Option<u32>,
    pub exit_message: Option<Seq<char>>,
    pub exit_status: Option<Seq<char>>,
    pub cpu_time: Option<u32>,
    pub wall_time: Option<u32>,
}

/// The view of an optional string.
pub open spec fn opt_view(s: Option<String>) -> Option<Seq<char>> {
    match s {
        Some(v) => Some(v@),
        None => None,
    }
}

impl View for StageMetadata {
    type V = MetadataView;

    open spec fn view(&self) -> MetadataView {
        MetadataView {
            memory: self.memory,
            exit_code: self.exit_code,
            exit_signal: self.exit_signal,
            exit_message: opt_view(self.exit_message),
            exit_status: opt_view(self.exit_status),
            cpu_time: self.cpu_time,
            wall_time: self.wall_time,
        }
    }
}

/// Metadata with nothing reported.
pub open spec fn empty_metadata() -> MetadataView {
    MetadataView {
        memory: None,
        exit_code: None,
        exit_signal: None,
        exit_message: None,
        exit_status: None,
        cpu_time: None,
        wall_time: None,
    }
}

/// `m` with one more entry taken in.
pub open spec fn apply_entry(m: MetadataView, e: EntryView) -> MetadataView {
    match e {
        EntryView::Memory(v) => MetadataView { memory: Some(v), ..m },
        EntryView::ExitCode(v) => MetadataView { exit_code: Some(v), ..m },
        EntryView::ExitSignal(v) => MetadataView { exit_signal: Some(v), ..m },
        EntryView::Message(s) => MetadataView { exit_message: Some(s), ..m },
        EntryView::Status(s) => MetadataView { exit_status: Some(s), ..m },
        EntryView::CpuTime(v) => MetadataView { cpu_time: Some(v), ..m },
        EntryView::WallTime(v) => MetadataView { wall_time: Some(v), ..m },
        EntryView::Ignored => m,
    }
}

/// The metadata that a sequence of lines reports, read in order.
pub open spec fn metadata_of_lines(lines: Seq<Seq<char>>) -> MetadataView {
    lines.fold_left(empty_metadata(), |m: MetadataView, l: Seq<char>| apply_entry(m, metadata_entry(l)))
}

/// The metadata that a metadata file reports.
pub open spec fn metadata_of(text: Seq<char>) -> MetadataView {
    metadata_of_lines(lines_of(text))
}

impl StageMetadata {
    fn take(&mut self, e: MetadataEntry)
        ensures
            final(self)@ == apply_entry(old(self)@, e@),
    {
        match e {
            MetadataEntry::Memory(v) => self.memory = Some(v),
            MetadataEntry::ExitCode(v) => self.exit_code = Some(v),
            MetadataEntry::ExitSignal(v) => self.exit_signal = Some(v),
            MetadataEntry::Message(s) => self.exit_message = Some(s),
            MetadataEntry::Status(s) => self.exit_status = Some(s),
            MetadataEntry::CpuTime(v) => self.cpu_time = Some(v),
            MetadataEntry::WallTime(v) => self.wall_time = Some(v),
            MetadataEntry::Ignored => {},
        }
    }
}

/// Reads a whole metadata file, line by line. Total: every line either
/// fills a field or is ignored.
pub fn parse_metadata(text: &str) -> (r: StageMetadata)
    ensures
        r@ == metadata_of(text@),
{
    let chars = chars_of(text);
    let spans = line_spans(&chars);
    let ghost lines = lines_of(text@);
    let mut m = StageMetadata {
        memory: None,
        exit_code: None,
        exit_signal: None,
        exit_message: None,
        exit_status: None,
        cpu_time: None,
        wall_time: None,
    };
    let mut k: usize = 0;
    assert(lines.take(0) =~= Seq::<Seq<char>>::empty());
    while k < spans.len()
        invariant
            chars@ == text@,
            lines == lines_of(text@),
            spans@.len() == lines.len(),
            forall|j: int|
                0 <= j < spans@.len() ==> {
                    &&& (#[trigger] spans@[j]).0 <= spans@[j].1 <= chars@.len()
                    &&& chars@.subrange(spans@[j].0 as int, spans@[j].1 as int) == lines[j]
                },
            k <= spans@.len(),
            m@ == metadata_of_lines(lines.take(k as int)),
        decreases spans@.len() - k,
    {
        let (a, b) = spans[k];
        let line = text.substring_char(a, b);
        let e = parse_metadata_line(line);
        m.take(e);
        assert(lines.take(k + 1).drop_last() =~= lines.take(k as int));
        k = k + 1;
    }
    assert(lines.take(k as int) =~= lines);
    m
}

} // verus!
