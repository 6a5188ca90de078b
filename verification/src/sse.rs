//! The server-sent-events line protocol of the streaming endpoints.
//!
//! Text arrives in chunks; complete lines are read as they arrive. An
//! `event:` line names the event, `data:` lines accumulate its payload,
//! and a blank line ends it. An event named `done` or `end` closes the
//! stream; any other event with data yields its lines joined by `\n`
//! (unless that is empty). Other lines (`id:`, `retry:`, comments) are
//! ignored.
use vstd::prelude::*;
use crate::codegraph::{trim_end_char, trim_end_char_chars};
use crate::text::{
    append_str, chars_eq_str, chars_of, find_char, find_char_in, joined, lemma_find_char_range, skip_chars,
    slice_chars, starts_with, starts_with_str, string_of, trim, trim_chars,
};

verus! {

/// What the stream yields.
#[derive(Debug, Clone, PartialEq, Eq)]
pub enum SseEvent {
    /// The payload of one event.
    Data(String),
    /// The stream closed with a terminal event.
    Done,
}

/// The parser's state as plain values: the unfinished line, the current
/// event name, its data lines, and whether the stream closed.
pub struct SseState {
    pub pending: Seq<char>,
    pub event: Seq<char>,
    pub data: Seq<Seq<char>>,
    pub closed: bool,
}

/// A yielded item as plain values.
pub enum SseOut {
    Data(Seq<char>),
    Done,
}

pub open spec fn out_of(e: SseEvent) -> SseOut {
    match e {
        SseEvent::Data(s) => SseOut::Data(s@),
        SseEvent::Done => SseOut::Done,
    }
}

pub open spec fn outs(v: Seq<SseEvent>) -> Seq<SseOut> {
    v.map_values(|e: SseEvent| out_of(e))
}

/// One complete line read in state `st`.
pub open spec fn on_line(st: SseState, line: Seq<char>) -> (SseState, Seq<SseOut>) {
    if st.closed {
        (st, Seq::empty())
    } else if line.len() == 0 {
        if st.data.len() == 0 {
            (st, Seq::empty())
        } else if st.event == "done"@ || st.event == "end"@ {
            (SseState { closed: true, ..st }, seq![SseOut::Done])
        } else {
            let d = joined(st.data, "\n"@);
            let cleared = SseState { event: Seq::empty(), data: Seq::empty(), ..st };
            if d.len() == 0 {
                (cleared, Seq::empty())
            } else {
                (cleared, seq![SseOut::Data(d)])
            }
        }
    } else if starts_with(line, "event:"@) {
        (SseState { event: trim(line.skip(6)), ..st }, Seq::empty())
    } else if starts_with(line, "data:"@) {
        (SseState { data: st.data.push(trim(line.skip(5))), ..st }, Seq::empty())
    } else {
        (st, Seq::empty())
    }
}

/// Read every complete line of `buf` (its `\r` endings dropped); what
/// follows the last `\n` stays pending.
pub open spec fn read_lines(st: SseState, buf: Seq<char>) -> (SseState, Seq<SseOut>)
    decreases buf.len(),
{
    match find_char(buf, '\n') {
        None => (SseState { pending: buf, ..st }, Seq::empty()),
        Some(i) => {
            if 0 <= i < buf.len() {
                let (st1, o1) = on_line(st, trim_end_char(buf.take(i), '\r'));
                let (st2, o2) = read_lines(st1, buf.skip(i + 1));
                (st2, o1 + o2)
            } else {
                (st, Seq::empty())
            }
        },
    }
}

/// The payload left when the connection closes: the data lines of an
/// unfinished event, joined, unless that is empty.
pub open spec fn final_data(st: SseState) -> Option<Seq<char>> {
    if st.data.len() == 0 {
        None
    } else {
        let d = joined(st.data, "\n"@);
        if d.len() == 0 {
            None
        } else {
            Some(d)
        }
    }
}

/// An incremental parser of one stream.
pub struct SseParser {
    pending: Vec<char>,
    event: String,
    data: Vec<String>,
    closed: bool,
}

impl View for SseParser {
    type V = SseState;

    closed spec fn view(&self) -> SseState {
        SseState {
            pending: self.pending@,
            event: self.event@,
            data: self.data@.map_values(|s: String| s@),
            closed: self.closed,
        }
    }
}

fn join_lines(lines: &Vec<String>) -> (r: Vec<char>)
    ensures
        r@ == joined(lines@.map_values(|s: String| s@), "\n"@),
{
    let ghost parts = lines@.map_values(|s: String| s@);
    let mut out: Vec<char> = Vec::new();
    let mut i: usize = 0;
    proof {
        reveal_strlit("\n");
    }
    assert(parts.take(0) =~= Seq::<Seq<char>>::empty());
    while i < lines.len()
        invariant
            i <= lines@.len(),
            parts == lines@.map_values(|s: String| s@),
            out@ == joined(parts.take(i as int), "\n"@),
            "\n"@ == seq!['\n'],
        decreases lines.len() - i,
    {
        assert(parts.take(i + 1).drop_last() =~= parts.take(i as int));
        let ghost before = out@;
        if i > 0 {
            out.push('\n');
        }
        append_str(&mut out, lines[i].as_str());
        proof {
            assert(parts.take(i + 1)[i as int] == lines@[i as int]@);
            if i == 0 {
                assert(parts.take(1) =~= seq![lines@[0]@]);
                assert(before =~= Seq::<char>::empty());
            }
            assert(out@ =~= joined(parts.take(i + 1), "\n"@));
        }
        i = i + 1;
    }
    assert(parts.take(lines@.len() as int) =~= parts);
    out
}

impl SseParser {
    /// A parser that has read nothing.
    pub fn new() -> (r: Self)
        ensures
            r@ == (SseState { pending: Seq::empty(), event: Seq::empty(), data: Seq::empty(), closed: false }),
    {
        let r = SseParser { pending: Vec::new(), event: String::new(), data: Vec::new(), closed: false };
        assert(r@.data =~= Seq::<Seq<char>>::empty());
        r
    }

    /// Whether a terminal event closed the stream.
    pub fn is_closed(&self) -> (r: bool)
        ensures
            r == self@.closed,
    {
        self.closed
    }

    fn line(&mut self, line: &Vec<char>) -> (out: Vec<SseEvent>)
        ensures
            ({
                let (st, o) = on_line(old(self)@, line@);
                &&& final(self)@ == SseState { pending: old(self)@.pending, ..st }
                &&& outs(out@) == o
            }),
    {
        let mut out: Vec<SseEvent> = Vec::new();
        if self.closed {
            assert(outs(out@) =~= Seq::<SseOut>::empty());
            return out;
        }
        if line.len() == 0 {
            if self.data.len() == 0 {
                assert(outs(out@) =~= Seq::<SseOut>::empty());
                return out;
            }
            let ev = chars_of(self.event.as_str());
            if chars_eq_str(&ev, "done") || chars_eq_str(&ev, "end") {
                self.closed = true;
                out.push(SseEvent::Done);
                assert(outs(out@) =~= seq![SseOut::Done]);
                return out;
            }
            let d = join_lines(&self.data);
            self.data = Vec::new();
            self.event = String::new();
            assert(self@.data =~= Seq::<Seq<char>>::empty());
            if d.len() == 0 {
                assert(outs(out@) =~= Seq::<SseOut>::empty());
                return out;
            }
            let d = string_of(&d);
            out.push(SseEvent::Data(d));
            assert(outs(out@) =~= seq![SseOut::Data(d@)]);
            return out;
        }
        if starts_with_str(line, "event:") {
            proof {
                reveal_strlit("event:");
            }
            let v = trim_chars(&skip_chars(line, 6));
            self.event = string_of(&v);
        } else if starts_with_str(line, "data:") {
            proof {
                reveal_strlit("data:");
            }
            let v = trim_chars(&skip_chars(line, 5));
            let ghost before = self.data@.map_values(|s: String| s@);
            self.data.push(string_of(&v));
            assert(self.data@.map_values(|s: String| s@) =~= before.push(v@));
        }
        assert(outs(out@) =~= Seq::<SseOut>::empty());
        out
    }

    /// Read a chunk of text; yields what the lines it completes produce.
    pub fn feed(&mut self, chunk: &str) -> (out: Vec<SseEvent>)
        ensures
            ({
                let (st, o) = read_lines(old(self)@, old(self)@.pending + chunk@);
                &&& final(self)@ == st
                &&& outs(out@) == o
            }),
    {
        let mut buf = self.pending.clone();
        let c = chars_of(chunk);
        let mut k: usize = 0;
        while k < c.len()
            invariant
                k <= c@.len(),
                buf@ == self.pending@ + c@.take(k as int),
            decreases c.len() - k,
        {
            buf.push(c[k]);
            assert(c@.take(k + 1) =~= c@.take(k as int).push(c@[k as int]));
            k = k + 1;
        }
        assert(c@.take(c@.len() as int) =~= c@);
        let ghost st0 = self@;
        assert(st0 == old(self)@);
        assert(buf@ == old(self)@.pending + chunk@);
        let ghost total = read_lines(st0, buf@);
        let mut out: Vec<SseEvent> = Vec::new();
        loop
            invariant
                total == read_lines(old(self)@, old(self)@.pending + chunk@),
                ({
                    let (st, o) = read_lines(self@, buf@);
                    &&& st == total.0
                    &&& outs(out@) + o == total.1
                }),
            decreases buf@.len(),
        {
            let _n = buf.len();
            match find_char_in(&buf, '\n') {
                None => {
                    let ghost prev = self@;
                    let ghost b = buf@;
                    assert(read_lines(prev, b) == (SseState { pending: b, ..prev }, Seq::<SseOut>::empty()));
                    self.pending = buf;
                    assert(self@ == SseState { pending: b, ..prev });
                    assert(outs(out@) + Seq::<SseOut>::empty() =~= outs(out@));
                    return out;
                },
                Some(i) => {
                    proof {
                        lemma_find_char_range(buf@, '\n');
                    }
                    let head = slice_chars(&buf, 0, i);
                    assert(head@ =~= buf@.take(i as int));
                    let line = trim_end_char_chars(&head, '\r');
                    let rest = skip_chars(&buf, i + 1);
                    let ghost before = self@;
                    let ghost before_out = outs(out@);
                    let produced = self.line(&line);
                    let mut produced = produced;
                    out.append(&mut produced);
                    proof {
                        let (s1, o1) = on_line(before, line@);
                        assert(self@ == SseState { pending: before.pending, ..s1 });
                        assert(read_lines(SseState { pending: before.pending, ..s1 }, rest@) == read_lines(
                            s1,
                            rest@,
                        ));
                        assert(outs(out@) =~= before_out + o1);
                        assert(outs(out@) + read_lines(self@, rest@).1 =~= before_out + (o1 + read_lines(
                            s1,
                            rest@,
                        ).1));
                    }
                    buf = rest;
                },
            }
        }
    }

    /// The connection closed: the payload of an unfinished event, if any.
    pub fn finish(&self) -> (r: Option<String>)
        ensures
            match r {
                Some(d) => final_data(self@) == Some(d@),
                None => final_data(self@) is None,
            },
    {
        if self.data.len() == 0 {
            return None;
        }
        let d = join_lines(&self.data);
        if d.len() == 0 {
            None
        } else {
            Some(string_of(&d))
        }
    }
}

proof fn lemma_pending_irrelevant(st: SseState, p: Seq<char>, buf: Seq<char>)
    ensures
        read_lines(SseState { pending: p, ..st }, buf) == read_lines(st, buf),
    decreases buf.len(),
{
    let sp = SseState { pending: p, ..st };
    match find_char(buf, '\n') {
        None => {},
        Some(i) => {
            lemma_find_char_range(buf, '\n');
            let line = trim_end_char(buf.take(i), '\r');
            let (s1, o1) = on_line(st, line);
            let (t1, u1) = on_line(sp, line);
            assert(t1 == SseState { pending: p, ..s1 });
            lemma_pending_irrelevant(s1, p, buf.skip(i + 1));
        },
    }
}

proof fn lemma_find_char_prefix(a: Seq<char>, b: Seq<char>, c: char)
    ensures
        find_char(a, c) matches Some(i) ==> find_char(a + b, c) == Some(i),
        find_char(a, c) is None ==> find_char(a + b, c) == (match find_char(b, c) {
            Some(j) => Some(a.len() + j),
            None => None::<int>,
        }),
    decreases a.len(),
{
    if a.len() > 0 {
        assert((a + b).drop_first() =~= a.drop_first() + b);
        lemma_find_char_prefix(a.drop_first(), b, c);
    } else {
        assert(a + b =~= b);
    }
}

/// Chunk boundaries do not matter: reading `a` then `b` yields what
/// reading `a` and `b` in one piece yields, and ends in the same state.
pub proof fn lemma_chunking_is_invisible(st: SseState, a: Seq<char>, b: Seq<char>)
    ensures
        ({
            let (s1, o1) = read_lines(st, st.pending + a);
            let (s2, o2) = read_lines(s1, s1.pending + b);
            (s2, o1 + o2) == read_lines(st, st.pending + a + b)
        }),
{
    lemma_split_read(st, st.pending + a, b);
    assert(st.pending + a + b =~= (st.pending + a) + b);
}

proof fn lemma_split_read(st: SseState, a: Seq<char>, b: Seq<char>)
    ensures
        ({
            let (s1, o1) = read_lines(st, a);
            let (s2, o2) = read_lines(s1, s1.pending + b);
            (s2, o1 + o2) == read_lines(st, a + b)
        }),
    decreases a.len(),
{
    lemma_find_char_prefix(a, b, '\n');
    lemma_find_char_range(a, '\n');
    match find_char(a, '\n') {
        None => {
            let s1 = SseState { pending: a, ..st };
            lemma_pending_irrelevant(st, a, a + b);
            assert(read_lines(st, a).1 + read_lines(s1, a + b).1 =~= read_lines(s1, a + b).1);
        },
        Some(i) => {
            let line = trim_end_char(a.take(i), '\r');
            assert((a + b).take(i) =~= a.take(i));
            assert((a + b).skip(i + 1) =~= a.skip(i + 1) + b);
            let (t1, p1) = on_line(st, line);
            lemma_split_read(t1, a.skip(i + 1), b);
            let (s1, o1) = read_lines(t1, a.skip(i + 1));
            let (s2, o2) = read_lines(s1, s1.pending + b);
            assert(p1 + o1 + o2 =~= p1 + (o1 + o2));
        },
    }
}

/// A line ended by `\r\n` reads as the same line ended by `\n`: in
/// any state, with `x` a line's text (no `\n`), reading
/// `x` `\r\n` `y` gives exactly what reading `x` `\n` `y` gives.
pub proof fn lemma_crlf_reads_as_lf(st: SseState, x: Seq<char>, y: Seq<char>)
    requires
        forall|j: int| 0 <= j < x.len() ==> #[trigger] x[j] != '\n',
    ensures
        read_lines(st, x + seq!['\r', '\n'] + y) == read_lines(st, x + seq!['\n'] + y),
{
    let a = x + seq!['\r', '\n'] + y;
    let b = x + seq!['\n'] + y;
    lemma_find_char_range(x, '\n');
    assert(find_char(x, '\n') is None) by {
        if let Some(i) = find_char(x, '\n') {
            assert(x[i] == '\n');
        }
    }
    lemma_find_char_prefix(x, seq!['\r', '\n'] + y, '\n');
    lemma_find_char_prefix(x, seq!['\n'] + y, '\n');
    assert(a =~= x + (seq!['\r', '\n'] + y));
    assert(b =~= x + (seq!['\n'] + y));
    assert(find_char(seq!['\r', '\n'] + y, '\n') == Some(1int)) by {
        let t = seq!['\r', '\n'] + y;
        assert(t.len() >= 2);
        assert(t[0] == '\r');
        assert(t.drop_first()[0] == '\n');
        assert(find_char(t.drop_first(), '\n') == Some(0int));
    }
    assert(find_char(seq!['\n'] + y, '\n') == Some(0int));
    assert(find_char(a, '\n') == Some(x.len() as int + 1));
    assert(find_char(b, '\n') == Some(x.len() as int));
    assert(a.take(x.len() as int + 1) =~= x.push('\r'));
    assert(x.push('\r').drop_last() =~= x);
    assert(trim_end_char(a.take(x.len() as int + 1), '\r') == trim_end_char(x, '\r'));
    assert(b.take(x.len() as int) =~= x);
    assert(a.skip(x.len() as int + 2) =~= y);
    assert(b.skip(x.len() as int + 1) =~= y);
}

} // verus!
