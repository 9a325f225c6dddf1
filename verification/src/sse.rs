//! Server-sent events on the client side: cutting the received text into
//! messages at blank lines, and reading the data of a message.

use vstd::prelude::*;
use vstd::string::*;
use crate::text::owned;

verus! {

/// Whether `c` has the Unicode White_Space property, as `char::is_whitespace`
/// tests it.
pub open spec fn white_space(c: char) -> bool {
    let v = c as u32;
    ||| 0x09 <= v <= 0x0D
    ||| v == 0x20
    ||| v == 0x85
    ||| v == 0xA0
    ||| v == 0x1680
    ||| 0x2000 <= v <= 0x200A
    ||| v == 0x2028
    ||| v == 0x2029
    ||| v == 0x202F
    ||| v == 0x205F
    ||| v == 0x3000
}

/// Tests the Unicode White_Space property.
pub fn is_white_space(c: char) -> (r: bool)
    ensures
        r == white_space(c),
{
    let v = c as u32;
    (0x09 <= v && v <= 0x0D) || v == 0x20 || v == 0x85 || v == 0xA0 || v == 0x1680 || (0x2000 <= v
        && v <= 0x200A) || v == 0x2028 || v == 0x2029 || v == 0x202F || v == 0x205F || v == 0x3000
}

/// `s` without its leading white space.
pub open spec fn trim_start(s: Seq<char>) -> Seq<char>
    decreases s.len(),
{
    if s.len() > 0 && white_space(s[0]) {
        trim_start(s.drop_first())
    } else {
        s
    }
}

/// `s` without its trailing white space.
pub open spec fn trim_end(s: Seq<char>) -> Seq<char>
    decreases s.len(),
{
    if s.len() > 0 && white_space(s.last()) {
        trim_end(s.drop_last())
    } else {
        s
    }
}

/// `s` without leading and trailing white space, as `str::trim` gives it.
pub open spec fn trim(s: Seq<char>) -> Seq<char> {
    trim_end(trim_start(s))
}

/// Whether `s` holds nothing but white space.
pub open spec fn is_blank(s: Seq<char>) -> bool {
    trim(s).len() == 0
}

proof fn lemma_trim_start_skip(s: Seq<char>, i: int)
    requires
        0 <= i <= s.len(),
        forall|j: int| 0 <= j < i ==> white_space(s[j]),
    ensures
        trim_start(s) == trim_start(s.skip(i)),
    decreases i,
{
    if i > 0 {
        assert(s.drop_first().skip(i - 1) =~= s.skip(i));
        lemma_trim_start_skip(s.drop_first(), i - 1);
    } else {
        assert(s.skip(0) =~= s);
    }
}

proof fn lemma_trim_end_take(s: Seq<char>, k: int)
    requires
        0 <= k <= s.len(),
        forall|j: int| k <= j < s.len() ==> white_space(s[j]),
    ensures
        trim_end(s) == trim_end(s.take(k)),
    decreases s.len() - k,
{
    if k < s.len() {
        assert(s.drop_last().take(k) =~= s.take(k));
        lemma_trim_end_take(s.drop_last(), k);
    } else {
        assert(s.take(k) =~= s);
    }
}

/// The part of `s` from `from` that has no leading white space.
fn trim_start_from(s: &str, from: usize) -> (r: String)
    requires
        from <= s@.len(),
    ensures
        r@ == trim_start(s@.skip(from as int)),
{
    let n = s.unicode_len();
    let mut i = from;
    while i < n && is_white_space(s.get_char(i))
        invariant
            n == s@.len(),
            from <= i <= n,
            forall|j: int| from <= j < i ==> white_space(s@[j]),
        decreases n - i,
    {
        i = i + 1;
    }
    proof {
        let t = s@.skip(from as int);
        assert forall|j: int| 0 <= j < i - from implies white_space(t[j]) by {
            assert(t[j] == s@[from + j]);
        }
        lemma_trim_start_skip(t, i - from);
        assert(t.skip(i - from) =~= s@.skip(i as int));
    }
    owned(s.substring_char(i, n))
}

/// `s` without leading and trailing white space.
pub fn trim_str(s: &str) -> (r: String)
    ensures
        r@ == trim(s@),
{
    let a = trim_start_from(s, 0);
    assert(s@.skip(0) =~= s@);
    let n = a.as_str().unicode_len();
    let mut k = n;
    while k > 0 && is_white_space(a.as_str().get_char(k - 1))
        invariant
            n == a@.len(),
            k <= n,
            forall|j: int| k <= j < n ==> white_space(a@[j]),
        decreases k,
    {
        k = k - 1;
    }
    proof {
        lemma_trim_end_take(a@, k as int);
        lemma_trim_end_stops(a@.take(k as int));
    }
    owned(a.as_str().substring_char(0, k))
}

proof fn lemma_trim_end_stops(s: Seq<char>)
    requires
        s.len() == 0 || !white_space(s.last()),
    ensures
        trim_end(s) == s,
{
}

/// How text splits at blank lines ("\n\n"), scanning from position `i`
/// with the current message starting at `start`: the complete messages,
/// and the text after the last blank line.
pub open spec fn split_frames(s: Seq<char>, start: int, i: int) -> (Seq<Seq<char>>, Seq<char>)
    decreases s.len() - i,
{
    if i < 0 || i + 1 >= s.len() {
        (Seq::empty(), s.subrange(start, s.len() as int))
    } else if s[i] == '\n' && s[i + 1] == '\n' {
        let rest = split_frames(s, i + 2, i + 2);
        (seq![s.subrange(start, i)] + rest.0, rest.1)
    } else {
        split_frames(s, start, i + 1)
    }
}

/// The complete messages of a text and what is left after them.
pub open spec fn frames(s: Seq<char>) -> (Seq<Seq<char>>, Seq<char>) {
    split_frames(s, 0, 0)
}

/// The messages that are processed: those that are not blank, trimmed.
pub open spec fn messages_of(fs: Seq<Seq<char>>) -> Seq<Seq<char>>
    decreases fs.len(),
{
    if fs.len() == 0 {
        Seq::empty()
    } else if is_blank(fs.last()) {
        messages_of(fs.drop_last())
    } else {
        messages_of(fs.drop_last()).push(trim(fs.last()))
    }
}

/// Where a scan of `s` for blank lines stops: the start of the message in
/// progress and the scan position.
pub open spec fn scan_end(s: Seq<char>, start: int, i: int) -> (int, int)
    decreases s.len() - i,
{
    if i < 0 || i + 1 >= s.len() {
        (start, i)
    } else if s[i] == '\n' && s[i + 1] == '\n' {
        scan_end(s, i + 2, i + 2)
    } else {
        scan_end(s, start, i + 1)
    }
}

/// No blank line starts at a position in `lo..hi`, all of which are
/// followed by a character of `s`.
pub open spec fn scanned_clear(s: Seq<char>, lo: int, hi: int) -> bool {
    forall|p: int| lo <= p < hi ==> #[trigger] clear_at(s, p)
}

/// The position `p` is followed by a character of `s` and does not start
/// a blank line.
pub open spec fn clear_at(s: Seq<char>, p: int) -> bool {
    p + 1 < s.len() && !(s[p] == '\n' && s[p + 1] == '\n')
}

proof fn lemma_split_extend(s: Seq<char>, t: Seq<char>, start: int, i: int)
    requires
        0 <= start <= i <= s.len(),
        scanned_clear(s, start, i),
    ensures
        ({
            let (se, ie) = scan_end(s, start, i);
            &&& start <= se <= ie <= s.len()
            &&& ie + 1 >= s.len()
            &&& scanned_clear(s, se, ie)
            &&& split_frames(s, start, i).1 == s.subrange(se, s.len() as int)
            &&& split_frames(s + t, start, i) == (split_frames(s, start, i).0 + split_frames(s + t, se, ie).0,
                split_frames(s + t, se, ie).1)
        }),
    decreases s.len() - i,
{
    let u = s + t;
    if i + 1 >= s.len() {
        assert(split_frames(s, start, i).0 + split_frames(u, start, i).0 =~= split_frames(u, start, i).0);
    } else if s[i] == '\n' && s[i + 1] == '\n' {
        lemma_split_extend(s, t, i + 2, i + 2);
        assert(u[i] == s[i] && u[i + 1] == s[i + 1]);
        assert(u.subrange(start, i) =~= s.subrange(start, i));
        let a = split_frames(s, i + 2, i + 2);
        let (se, ie) = scan_end(s, i + 2, i + 2);
        let b = split_frames(u, se, ie);
        assert(seq![s.subrange(start, i)] + a.0 + b.0 =~= seq![s.subrange(start, i)] + (a.0 + b.0));
    } else {
        assert(clear_at(s, i));
        lemma_split_extend(s, t, start, i + 1);
        assert(u[i] == s[i] && u[i + 1] == s[i + 1]);
    }
}

proof fn lemma_split_shift(u: Seq<char>, k: int, st: int, j: int)
    requires
        0 <= k <= st <= j <= u.len(),
    ensures
        split_frames(u, st, j) == split_frames(u.skip(k), st - k, j - k),
    decreases u.len() - j,
{
    let v = u.skip(k);
    if j + 1 >= u.len() {
        assert(u.subrange(st, u.len() as int) =~= v.subrange(st - k, v.len() as int));
    } else {
        assert(v[j - k] == u[j] && v[j - k + 1] == u[j + 1]);
        if u[j] == '\n' && u[j + 1] == '\n' {
            lemma_split_shift(u, k, j + 2, j + 2);
            assert(u.subrange(st, j) =~= v.subrange(st - k, j - k));
        } else {
            lemma_split_shift(u, k, st, j + 1);
        }
    }
}

proof fn lemma_split_skip_clear(u: Seq<char>, st: int, j0: int, j: int)
    requires
        0 <= st <= j0 <= j <= u.len(),
        scanned_clear(u, j0, j),
    ensures
        split_frames(u, st, j0) == split_frames(u, st, j),
    decreases j - j0,
{
    if j0 < j {
        assert(clear_at(u, j0));
        lemma_split_skip_clear(u, st, j0 + 1, j);
    }
}

/// How received text is cut into chunks does not change the messages: the
/// messages of `a + b` are those completed by `a`, then those completed by
/// what was left of `a` followed by `b`; and the same is left over.
pub proof fn law_frames_chunking(a: Seq<char>, b: Seq<char>)
    ensures
        frames(a + b).0 == frames(a).0 + frames(frames(a).1 + b).0,
        frames(a + b).1 == frames(frames(a).1 + b).1,
{
    lemma_split_extend(a, b, 0, 0);
    let (se, ie) = scan_end(a, 0, 0);
    let u = a + b;
    lemma_split_shift(u, se, se, ie);
    let r = frames(a).1;
    assert(u.skip(se) =~= r + b);
    let v = r + b;
    assert forall|p: int| 0 <= p < ie - se implies #[trigger] clear_at(v, p) by {
        assert(clear_at(a, se + p));
        assert(v[p] == a[se + p] && v[p + 1] == a[se + p + 1]);
    }
    lemma_split_skip_clear(v, 0, 0, ie - se);
}

/// Feeding text in two chunks hands out the messages of the whole text and
/// keeps the same rest.
pub proof fn law_chunked_messages(a: Seq<char>, b: Seq<char>)
    ensures
        messages_of(frames(a + b).0) == messages_of(frames(a).0) + messages_of(frames(frames(a).1 + b).0),
{
    law_frames_chunking(a, b);
    lemma_messages_append(frames(a).0, frames(frames(a).1 + b).0);
}

proof fn lemma_messages_append(x: Seq<Seq<char>>, y: Seq<Seq<char>>)
    ensures
        messages_of(x + y) == messages_of(x) + messages_of(y),
    decreases y.len(),
{
    if y.len() == 0 {
        assert(x + y =~= x);
        assert(messages_of(x) + messages_of(y) =~= messages_of(x));
    } else {
        assert((x + y).drop_last() =~= x + y.drop_last());
        assert((x + y).last() == y.last());
        lemma_messages_append(x, y.drop_last());
        if is_blank(y.last()) {
        } else {
            assert(messages_of(x) + messages_of(y.drop_last()).push(trim(y.last()))
                =~= (messages_of(x) + messages_of(y.drop_last())).push(trim(y.last())));
        }
    }
}

proof fn lemma_split_lines_no_newline(s: Seq<char>, start: int, i: int)
    requires
        0 <= start <= i <= s.len(),
        forall|k: int| i <= k < s.len() ==> s[k] != '\n',
    ensures
        split_lines(s, start, i) == seq![s.subrange(start, s.len() as int)],
    decreases s.len() - i,
{
    if i < s.len() {
        lemma_split_lines_no_newline(s, start, i + 1);
    }
}

/// What the server streams, the client reads back: the event frame
/// "data: {payload}" followed by a blank line, for a payload with no line
/// feed and no white space at either end (as a serialised JSON value is),
/// is one complete message, nothing is left over, and the data of that
/// message is the payload.
pub proof fn law_frame_round_trip(j: Seq<char>)
    requires
        j.len() > 0,
        !j.contains('\n'),
        !white_space(j[0]),
        !white_space(j.last()),
    ensures
        frames("data: "@ + j + "\n\n"@) == (seq!["data: "@ + j], Seq::<char>::empty()),
        messages_of(seq!["data: "@ + j]) == seq!["data: "@ + j],
        sse_data("data: "@ + j) == Some(j),
{
    reveal_strlit("data: ");
    reveal_strlit("\n\n");
    let d = "data: "@ + j;
    let f = d + "\n\n"@;
    assert(d.len() == j.len() + 6);
    assert(f.len() == d.len() + 2);
    assert forall|k: int| 0 <= k < d.len() implies d[k] != '\n' by {
        if k >= 6 {
            assert(d[k] == j[k - 6]);
            assert(!(j[k - 6] == '\n'));
        }
    }
    assert forall|p: int| 0 <= p < d.len() implies #[trigger] clear_at(f, p) by {
        assert(f[p] == d[p]);
    }
    lemma_split_skip_clear(f, 0, 0, d.len() as int);
    let n = d.len() as int;
    assert(f[n] == '\n' && f[n + 1] == '\n');
    assert(f.subrange(0, n) =~= d);
    assert(f.subrange(n + 2, f.len() as int) =~= Seq::<char>::empty());
    assert(split_frames(f, n + 2, n + 2) == (Seq::<Seq<char>>::empty(), f.subrange(n + 2, f.len() as int)));
    assert(split_frames(f, 0, n) == (seq![d] + Seq::<Seq<char>>::empty(), Seq::<char>::empty()));
    assert(seq![d] + Seq::<Seq<char>>::empty() =~= seq![d]);
    // The message is its own trimmed form.
    assert(!white_space(d[0]));
    assert(d.last() == j.last());
    lemma_trim_end_stops(d);
    assert(trim(d) == d);
    assert(seq![d].drop_last() =~= Seq::<Seq<char>>::empty());
    assert(seq![d].last() == d);
    assert(!is_blank(d));
    assert(messages_of(Seq::<Seq<char>>::empty()) == Seq::<Seq<char>>::empty());
    assert(messages_of(seq![d]) == messages_of(Seq::<Seq<char>>::empty()).push(d));
    assert(messages_of(seq![d]) =~= seq![d]);
    // Its data.
    lemma_split_lines_no_newline(d, 0, 0);
    assert(d.subrange(0, n) =~= d);
    assert(starts_with_data(d));
    let rest = d.skip(5);
    assert(rest[0] == ' ');
    assert(rest.drop_first() =~= j);
    lemma_trim_end_stops(j);
    assert(trim_start(j) == j);
    assert(trim_start(rest) == j);
    assert(data_of_line(d) == Some(j));
    assert(data_lines(seq![d]) == data_lines(Seq::<Seq<char>>::empty()).push(j));
    assert(data_lines(seq![d]) =~= seq![j]);
    assert(join_lines(seq![j]) == j);
    assert(trim(j) == j);
}

/// Collects the text of an event stream and hands out its messages as
/// soon as they are complete.
pub struct SseBuffer {
    buffer: String,
}

impl SseBuffer {
    /// The text received after the last complete message.
    pub closed spec fn view(&self) -> Seq<char> {
        self.buffer@
    }

    /// A buffer that has received nothing.
    pub fn new() -> (r: Self)
        ensures
            r@ == Seq::<char>::empty(),
    {
        SseBuffer { buffer: String::new() }
    }

    /// Adds received text; hands out, in order, each message it completes
    /// that is not blank, trimmed, and keeps the rest.
    pub fn push_chunk(&mut self, chunk: &str) -> (r: Vec<String>)
        ensures
            final(self)@ == frames(old(self)@ + chunk@).1,
            r.deep_view() == messages_of(frames(old(self)@ + chunk@).0),
    {
        let mut text = self.buffer.clone();
        text.append(chunk);
        let ghost t = text@;
        let n = text.as_str().unicode_len();
        let mut out: Vec<String> = Vec::new();
        let ghost mut acc: Seq<Seq<char>> = Seq::empty();
        let mut start: usize = 0;
        let mut i: usize = 0;
        while n > 0 && i < n - 1
            invariant
                t == text@,
                n == t.len(),
                start <= i <= n,
                frames(t) == (acc + split_frames(t, start as int, i as int).0, split_frames(t, start as int, i as int).1),
                out.deep_view() == messages_of(acc),
            decreases n - i,
        {
            if text.as_str().get_char(i) == '\n' && text.as_str().get_char(i + 1) == '\n' {
                let piece = text.as_str().substring_char(start, i);
                let ghost frame = t.subrange(start as int, i as int);
                proof {
                    let rest = split_frames(t, i + 2, i + 2);
                    assert(split_frames(t, start as int, i as int) == (seq![frame] + rest.0, rest.1));
                    assert(acc + (seq![frame] + rest.0) =~= acc.push(frame) + rest.0);
                    assert(acc.push(frame).drop_last() =~= acc);
                }
                let trimmed = trim_str(piece);
                let blank = trimmed.as_str().unicode_len() == 0;
                if !blank {
                    let ghost before = out.deep_view();
                    out.push(trimmed);
                    proof {
                        assert(out.deep_view() =~= before.push(trim(frame)));
                    }
                }
                proof {
                    acc = acc.push(frame);
                }
                start = i + 2;
                i = i + 2;
            } else {
                i = i + 1;
            }
        }
        proof {
            assert(split_frames(t, start as int, i as int) == (Seq::<Seq<char>>::empty(), t.subrange(start as int, n as int)));
            assert(acc + Seq::<Seq<char>>::empty() =~= acc);
        }
        self.buffer = owned(text.as_str().substring_char(start, n));
        out
    }

    /// The last message, when the stream ends: what is left, trimmed,
    /// unless it is blank.
    pub fn finish(self) -> (r: Option<String>)
        ensures
            is_blank(self@) ==> r is None,
            !is_blank(self@) ==> (r matches Some(m) && m@ == trim(self@)),
    {
        let trimmed = trim_str(self.buffer.as_str());
        if trimmed.as_str().unicode_len() == 0 {
            None
        } else {
            Some(trimmed)
        }
    }
}

/// The lines of `s` from `start`, scanning from `i`: the pieces between
/// line feeds.
pub open spec fn split_lines(s: Seq<char>, start: int, i: int) -> Seq<Seq<char>>
    decreases s.len() - i,
{
    if i < 0 || i >= s.len() {
        seq![s.subrange(start, s.len() as int)]
    } else if s[i] == '\n' {
        seq![s.subrange(start, i)] + split_lines(s, i + 1, i + 1)
    } else {
        split_lines(s, start, i + 1)
    }
}

/// Whether `t` starts with "data:".
pub open spec fn starts_with_data(t: Seq<char>) -> bool {
    t.len() >= 5 && t[0] == 'd' && t[1] == 'a' && t[2] == 't' && t[3] == 'a' && t[4] == ':'
}

/// The data a line of an event carries: for a "data:" field (after
/// trimming the line), the value without leading white space. Blank lines,
/// comments (":") and other fields carry none.
pub open spec fn data_of_line(line: Seq<char>) -> Option<Seq<char>> {
    let t = trim(line);
    if t.len() == 0 || t[0] == ':' {
        None
    } else if starts_with_data(t) {
        Some(trim_start(t.skip(5)))
    } else {
        None
    }
}

/// The data of each data line, in order.
pub open spec fn data_lines(ls: Seq<Seq<char>>) -> Seq<Seq<char>>
    decreases ls.len(),
{
    if ls.len() == 0 {
        Seq::empty()
    } else {
        let p = data_lines(ls.drop_last());
        match data_of_line(ls.last()) {
            Some(d) => p.push(d),
            None => p,
        }
    }
}

/// Lines joined with line feeds.
pub open spec fn join_lines(ls: Seq<Seq<char>>) -> Seq<char>
    decreases ls.len(),
{
    if ls.len() == 0 {
        Seq::empty()
    } else if ls.len() == 1 {
        ls[0]
    } else {
        join_lines(ls.drop_last()) + seq!['\n'] + ls.last()
    }
}

/// The data of an event message: its data lines joined with line feeds;
/// none when it has no data line or the data is blank.
pub open spec fn sse_data(message: Seq<char>) -> Option<Seq<char>> {
    let d = data_lines(split_lines(message, 0, 0));
    if d.len() == 0 {
        None
    } else if is_blank(join_lines(d)) {
        None
    } else {
        Some(join_lines(d))
    }
}

/// The data carried by a line, if it is a data line.
fn line_data(line: &str) -> (r: Option<String>)
    ensures
        r.deep_view() == data_of_line(line@),
{
    let t = trim_str(line);
    let ts = t.as_str();
    let n = ts.unicode_len();
    if n == 0 || ts.get_char(0) == ':' {
        return None;
    }
    if n >= 5 && ts.get_char(0) == 'd' && ts.get_char(1) == 'a' && ts.get_char(2) == 't' && ts.get_char(3) == 'a'
        && ts.get_char(4) == ':' {
        Some(trim_start_from(ts, 5))
    } else {
        None
    }
}

/// Joins lines with line feeds.
fn join_with_newlines(ls: &Vec<String>) -> (r: String)
    ensures
        r@ == join_lines(ls.deep_view()),
{
    let ghost d = ls.deep_view();
    let mut out = String::new();
    let mut k: usize = 0;
    while k < ls.len()
        invariant
            d == ls.deep_view(),
            k <= ls@.len(),
            out@ == join_lines(d.take(k as int)),
        decreases ls@.len() - k,
    {
        proof {
            assert(d.take(k + 1).drop_last() =~= d.take(k as int));
            assert(d.take(k + 1).last() == ls@[k as int]@);
        }
        if k == 0 {
            out.append(ls[k].as_str());
            assert(d.take(1) =~= seq![ls@[0]@]);
            assert(out@ =~= ls@[0]@);
        } else {
            out.append("\n");
            proof {
                reveal_strlit("\n");
            }
            out.append(ls[k].as_str());
        }
        k = k + 1;
    }
    assert(d.take(k as int) =~= d);
    out
}

/// The data of an event message (see `sse_data`).
pub fn sse_event_data(message: &str) -> (r: Option<String>)
    ensures
        r.deep_view() == sse_data(message@),
{
    let ghost m = message@;
    let n = message.unicode_len();
    let mut data: Vec<String> = Vec::new();
    let ghost mut acc: Seq<Seq<char>> = Seq::empty();
    let mut start: usize = 0;
    let mut i: usize = 0;
    while i < n
        invariant
            m == message@,
            n == m.len(),
            start <= i <= n,
            split_lines(m, 0, 0) == acc + split_lines(m, start as int, i as int),
            data.deep_view() == data_lines(acc),
        decreases n - i,
    {
        if message.get_char(i) == '\n' {
            let line = message.substring_char(start, i);
            let ghost piece = m.subrange(start as int, i as int);
            proof {
                let rest = split_lines(m, i + 1, i + 1);
                assert(split_lines(m, start as int, i as int) == seq![piece] + rest);
                assert(acc + (seq![piece] + rest) =~= acc.push(piece) + rest);
                assert(acc.push(piece).drop_last() =~= acc);
            }
            match line_data(line) {
                Some(d) => {
                    let ghost before = data.deep_view();
                    let ghost dv = d@;
                    data.push(d);
                    assert(data.deep_view() =~= before.push(dv));
                },
                None => {},
            }
            proof {
                acc = acc.push(piece);
            }
            start = i + 1;
        }
        i = i + 1;
    }
    let last = message.substring_char(start, n);
    let ghost piece = m.subrange(start as int, n as int);
    proof {
        assert(split_lines(m, start as int, n as int) == seq![piece]);
        assert(acc + seq![piece] =~= acc.push(piece));
        assert(acc.push(piece).drop_last() =~= acc);
    }
    match line_data(last) {
        Some(d) => {
            let ghost before = data.deep_view();
            let ghost dv = d@;
            data.push(d);
            assert(data.deep_view() =~= before.push(dv));
        },
        None => {},
    }
    proof {
        acc = acc.push(piece);
    }
    if data.len() == 0 {
        return None;
    }
    let joined = join_with_newlines(&data);
    let t = trim_str(joined.as_str());
    if t.as_str().unicode_len() == 0 {
        None
    } else {
        Some(joined)
    }
}

} // verus!
