//! The front matter of a prompt file: a block of `key: value` lines
//! between two `---` fences at the head of the file, and the template
//! that follows it.

use vstd::prelude::*;
use vstd::string::StrSliceExecFns;

use crate::text::chars_of;

verus! {

/// The byte order mark, which some editors put at the head of a file.
pub const BYTE_ORDER_MARK: char = '\u{FEFF}';

/// Whether a character is white space: one of the 25 code points that
/// carry the Unicode property `White_Space`.
pub open spec fn is_white_space(c: char) -> bool {
    let u = c as u32;
    ||| 0x09 <= u <= 0x0D
    ||| u == 0x20
    ||| u == 0x85
    ||| u == 0xA0
    ||| u == 0x1680
    ||| 0x2000 <= u <= 0x200A
    ||| u == 0x2028
    ||| u == 0x2029
    ||| u == 0x202F
    ||| u == 0x205F
    ||| u == 0x3000
}

/// Whether a character is white space.
pub fn white_space(c: char) -> (r: bool)
    ensures
        r == is_white_space(c),
{
    let u: u32 = c as u32;
    (0x09 <= u && u <= 0x0D) || u == 0x20 || u == 0x85 || u == 0xA0 || u == 0x1680 || (0x2000 <= u
        && u <= 0x200A) || u == 0x2028 || u == 0x2029 || u == 0x202F || u == 0x205F || u == 0x3000
}

/// The text without the byte order marks at its head.
pub open spec fn strip_marks(s: Seq<char>) -> Seq<char>
    decreases s.len(),
{
    if s.len() > 0 && s[0] == BYTE_ORDER_MARK {
        strip_marks(s.drop_first())
    } else {
        s
    }
}

/// The text without the white space at its head.
pub open spec fn trim_start(s: Seq<char>) -> Seq<char>
    decreases s.len(),
{
    if s.len() > 0 && is_white_space(s[0]) {
        trim_start(s.drop_first())
    } else {
        s
    }
}

/// The text without the white space at its end.
pub open spec fn trim_end(s: Seq<char>) -> Seq<char>
    decreases s.len(),
{
    if s.len() > 0 && is_white_space(s.last()) {
        trim_end(s.drop_last())
    } else {
        s
    }
}

/// The text without the white space at either end.
pub open spec fn trim(s: Seq<char>) -> Seq<char> {
    trim_end(trim_start(s))
}

/// `pattern` stands in `s` at position `i`.
pub open spec fn occurs_at(s: Seq<char>, pattern: Seq<char>, i: int) -> bool {
    &&& 0 <= i
    &&& i + pattern.len() <= s.len()
    &&& s.subrange(i, i + pattern.len()) == pattern
}

/// `pattern` stands in `s` at position `i` and nowhere before.
pub open spec fn first_occurs_at(s: Seq<char>, pattern: Seq<char>, i: int) -> bool {
    &&& occurs_at(s, pattern, i)
    &&& forall|j: int| 0 <= j < i ==> !occurs_at(s, pattern, j)
}

/// The first position at which `pattern` stands in `s`.
pub open spec fn find(s: Seq<char>, pattern: Seq<char>) -> Option<int> {
    if exists|i: int| first_occurs_at(s, pattern, i) {
        Some(choose|i: int| first_occurs_at(s, pattern, i))
    } else {
        None
    }
}

/// The first position at which the character `c` stands in `s`.
pub open spec fn index_of(s: Seq<char>, c: char) -> Option<int> {
    find(s, seq![c])
}

/// A first occurrence is the one that `find` gives.
pub proof fn lemma_find_at(s: Seq<char>, pattern: Seq<char>, i: int)
    requires
        first_occurs_at(s, pattern, i),
    ensures
        find(s, pattern) == Some(i),
{
    let k = choose|k: int| first_occurs_at(s, pattern, k);
    if k < i {
        assert(!occurs_at(s, pattern, k));
    } else if i < k {
        assert(!occurs_at(s, pattern, i));
    }
}

/// Where the pattern stands nowhere, `find` gives nothing.
pub proof fn lemma_find_none(s: Seq<char>, pattern: Seq<char>)
    requires
        forall|j: int| 0 <= j ==> !occurs_at(s, pattern, j),
    ensures
        find(s, pattern) is None,
{
}

/// Skipping `k` characters of white space, up to one that is none or to
/// the end, is trimming the start.
pub proof fn lemma_trim_start(s: Seq<char>, k: int)
    requires
        0 <= k <= s.len(),
        forall|i: int| 0 <= i < k ==> is_white_space(#[trigger] s[i]),
        k < s.len() ==> !is_white_space(s[k]),
    ensures
        trim_start(s) == s.skip(k),
    decreases k,
{
    if k == 0 {
        assert(s.skip(0) =~= s);
    } else {
        let rest = s.drop_first();
        assert(is_white_space(s[0]));
        assert forall|i: int| 0 <= i < k - 1 implies is_white_space(#[trigger] rest[i]) by {
            assert(rest[i] == s[i + 1]);
        }
        lemma_trim_start(rest, k - 1);
        assert(rest.skip(k - 1) =~= s.skip(k));
    }
}

/// Dropping the white space after position `k`, where the character
/// before `k` is none, is trimming the end.
pub proof fn lemma_trim_end(s: Seq<char>, k: int)
    requires
        0 <= k <= s.len(),
        forall|i: int| k <= i < s.len() ==> is_white_space(#[trigger] s[i]),
        k > 0 ==> !is_white_space(s[k - 1]),
    ensures
        trim_end(s) == s.take(k),
    decreases s.len() - k,
{
    if k == s.len() {
        assert(s.take(k) =~= s);
    } else {
        let rest = s.drop_last();
        assert(is_white_space(s[s.len() - 1]));
        assert forall|i: int| k <= i < rest.len() implies is_white_space(#[trigger] rest[i]) by {
            assert(rest[i] == s[i]);
        }
        lemma_trim_end(rest, k);
        assert(rest.take(k) =~= s.take(k));
    }
}

/// Skipping `k` byte order marks, up to a character that is none or to
/// the end, is stripping the marks.
pub proof fn lemma_strip_marks(s: Seq<char>, k: int)
    requires
        0 <= k <= s.len(),
        forall|i: int| 0 <= i < k ==> #[trigger] s[i] == BYTE_ORDER_MARK,
        k < s.len() ==> s[k] != BYTE_ORDER_MARK,
    ensures
        strip_marks(s) == s.skip(k),
    decreases k,
{
    if k == 0 {
        assert(s.skip(0) =~= s);
    } else {
        let rest = s.drop_first();
        assert(s[0] == BYTE_ORDER_MARK);
        assert forall|i: int| 0 <= i < k - 1 implies #[trigger] rest[i] == BYTE_ORDER_MARK by {
            assert(rest[i] == s[i + 1]);
        }
        lemma_strip_marks(rest, k - 1);
        assert(rest.skip(k - 1) =~= s.skip(k));
    }
}

/// The start of `s[from..to]` once its leading white space is skipped.
fn skip_white_space(s: &Vec<char>, from: usize, to: usize) -> (start: usize)
    requires
        from <= to <= s.len(),
    ensures
        from <= start <= to,
        s@.subrange(start as int, to as int) == trim_start(s@.subrange(from as int, to as int)),
{
    let ghost part = s@.subrange(from as int, to as int);
    let mut start: usize = from;
    while start < to && white_space(s[start])
        invariant
            from <= start <= to <= s.len(),
            part == s@.subrange(from as int, to as int),
            forall|i: int| 0 <= i < start - from ==> is_white_space(#[trigger] part[i]),
        decreases to - start,
    {
        start += 1;
    }
    proof {
        lemma_trim_start(part, start - from);
        assert(part.skip(start - from) =~= s@.subrange(start as int, to as int));
    }
    start
}

/// The end of `s[from..to]` once its trailing white space is dropped.
fn drop_white_space(s: &Vec<char>, from: usize, to: usize) -> (end: usize)
    requires
        from <= to <= s.len(),
    ensures
        from <= end <= to,
        s@.subrange(from as int, end as int) == trim_end(s@.subrange(from as int, to as int)),
{
    let ghost part = s@.subrange(from as int, to as int);
    let mut end: usize = to;
    while end > from && white_space(s[end - 1])
        invariant
            from <= end <= to <= s.len(),
            part == s@.subrange(from as int, to as int),
            forall|i: int| end - from <= i < part.len() ==> is_white_space(#[trigger] part[i]),
        decreases end - from,
    {
        end -= 1;
    }
    proof {
        lemma_trim_end(part, end - from);
        assert(part.take(end - from) =~= s@.subrange(from as int, end as int));
    }
    end
}

/// The bounds of `s[from..to]` once the white space at both ends is gone.
fn trim_bounds(s: &Vec<char>, from: usize, to: usize) -> (bounds: (usize, usize))
    requires
        from <= to <= s.len(),
    ensures
        from <= bounds.0 <= bounds.1 <= to,
        s@.subrange(bounds.0 as int, bounds.1 as int) == trim(s@.subrange(from as int, to as int)),
{
    let start = skip_white_space(s, from, to);
    let end = drop_white_space(s, start, to);
    (start, end)
}

/// Whether `pattern` stands in `s` at position `at`, before `to`.
fn stands_at(s: &Vec<char>, at: usize, to: usize, pattern: &Vec<char>) -> (r: bool)
    requires
        at <= to <= s.len(),
    ensures
        r == (at + pattern.len() <= to && s@.subrange(at as int, at + pattern.len()) == pattern@),
{
    if pattern.len() > to - at {
        return false;
    }
    let mut k: usize = 0;
    while k < pattern.len()
        invariant
            k <= pattern.len(),
            at + pattern.len() <= to <= s.len(),
            forall|j: int| 0 <= j < k ==> s@[at + j] == pattern@[j],
        decreases pattern.len() - k,
    {
        if s[at + k] != pattern[k] {
            assert(s@.subrange(at as int, at + pattern.len())[k as int] != pattern@[k as int]);
            return false;
        }
        k += 1;
    }
    assert(s@.subrange(at as int, at + pattern.len()) =~= pattern@);
    true
}

/// The first position in `s[from..to]` at which `pattern` stands, counted
/// from the start of `s`.
fn find_in(s: &Vec<char>, from: usize, to: usize, pattern: &Vec<char>) -> (r: Option<usize>)
    requires
        from <= to <= s.len(),
    ensures
        match r {
            Some(at) => from <= at && at + pattern.len() <= to && find(
                s@.subrange(from as int, to as int),
                pattern@,
            ) == Some(at - from),
            None => find(s@.subrange(from as int, to as int), pattern@) is None,
        },
{
    let ghost part = s@.subrange(from as int, to as int);
    let mut at: usize = from;
    while at < to
        invariant
            from <= at <= to <= s.len(),
            part == s@.subrange(from as int, to as int),
            forall|j: int| 0 <= j < at - from ==> !occurs_at(part, pattern@, j),
        decreases to - at,
    {
        if stands_at(s, at, to, pattern) {
            proof {
                assert(part.subrange(at - from, at - from + pattern.len()) =~= s@.subrange(
                    at as int,
                    at + pattern.len(),
                ));
                lemma_find_at(part, pattern@, at - from);
            }
            return Some(at);
        }
        proof {
            if at + pattern.len() <= to {
                assert(part.subrange(at - from, at - from + pattern.len()) =~= s@.subrange(
                    at as int,
                    at + pattern.len(),
                ));
            }
        }
        at += 1;
    }
    // Only the empty pattern stands at the very end.
    if stands_at(s, to, to, pattern) {
        proof {
            assert(part.subrange(to - from, to - from + pattern.len()) =~= s@.subrange(
                to as int,
                to + pattern.len(),
            ));
            lemma_find_at(part, pattern@, to - from);
        }
        return Some(to);
    }
    proof {
        assert(part.subrange(to - from, to - from) =~= s@.subrange(to as int, to as int));
        lemma_find_none(part, pattern@);
    }
    None
}

/// Whether `pattern` stands somewhere in `s`.
pub fn contains_text(s: &str, pattern: &str) -> (r: bool)
    ensures
        r == find(s@, pattern@) is Some,
{
    let text = chars_of(s);
    let wanted = chars_of(pattern);
    assert(text@.subrange(0, text.len() as int) =~= text@);
    find_in(&text, 0, text.len(), &wanted).is_some()
}

/// The first position in `s[from..to]` at which the character `c` stands,
/// counted from the start of `s`.
fn index_of_in(s: &Vec<char>, from: usize, to: usize, c: char) -> (r: Option<usize>)
    requires
        from <= to <= s.len(),
    ensures
        match r {
            Some(at) => from <= at < to && s@[at as int] == c && index_of(
                s@.subrange(from as int, to as int),
                c,
            ) == Some(at - from),
            None => index_of(s@.subrange(from as int, to as int), c) is None,
        },
{
    let ghost part = s@.subrange(from as int, to as int);
    let mut at: usize = from;
    while at < to
        invariant
            from <= at <= to <= s.len(),
            part == s@.subrange(from as int, to as int),
            forall|j: int| 0 <= j < at - from ==> part[j] != c,
        decreases to - at,
    {
        if s[at] == c {
            proof {
                assert(part.subrange(at - from, at - from + 1) =~= seq![c]);
                assert forall|j: int| 0 <= j < at - from implies !occurs_at(part, seq![c], j) by {
                    if occurs_at(part, seq![c], j) {
                        assert(part.subrange(j, j + 1)[0] == c);
                    }
                }
                lemma_find_at(part, seq![c], at - from);
            }
            return Some(at);
        }
        at += 1;
    }
    proof {
        assert forall|j: int| 0 <= j implies !occurs_at(part, seq![c], j) by {
            if occurs_at(part, seq![c], j) {
                assert(part.subrange(j, j + 1)[0] == c);
            }
        }
        lemma_find_none(part, seq![c]);
    }
    None
}

/// The characters of `content` from position `from` up to `to`, as text.
fn text_between(content: &str, from: usize, to: usize) -> (text: String)
    requires
        from <= to <= content@.len(),
    ensures
        text@ == content@.subrange(from as int, to as int),
{
    content.substring_char(from, to).to_owned()
}


/// The key and value that a line holds: what stands before its first
/// colon and what stands after it, each without the white space around
/// it. A line without a colon holds none.
pub open spec fn entry_of(line: Seq<char>) -> Option<(Seq<char>, Seq<char>)> {
    let text = trim(line);
    match index_of(text, ':') {
        Some(i) => Some((trim(text.take(i)), trim(text.skip(i + 1)))),
        None => None,
    }
}

/// An optional entry as a sequence of none or one.
pub open spec fn entry_seq(entry: Option<(Seq<char>, Seq<char>)>) -> Seq<(Seq<char>, Seq<char>)> {
    match entry {
        Some(e) => seq![e],
        None => Seq::empty(),
    }
}

/// The entries of a block, line by line. Lines end at a line feed.
pub open spec fn entries(block: Seq<char>) -> Seq<(Seq<char>, Seq<char>)>
    decreases block.len(),
{
    match index_of(block, '\n') {
        Some(i) => if 0 <= i < block.len() {
            entry_seq(entry_of(block.take(i))) + entries(block.skip(i + 1))
        } else {
            Seq::empty()
        },
        None => entry_seq(entry_of(block)),
    }
}

/// Mathematical model of [`Frontmatter`].
pub enum FrontmatterView {
    Absent { body: Seq<char> },
    Unclosed,
    Present { entries: Seq<(Seq<char>, Seq<char>)>, template: Seq<char> },
}

/// A file taken apart at its fences.
#[derive(Debug)]
pub enum Frontmatter {
    /// The file does not open with a fence. `body` is all of it but the
    /// byte order marks at its head.
    Absent { body: String },
    /// The file opens with a fence that is never closed.
    Unclosed,
    /// The entries between the fences, and the template after them.
    Present { entries: Vec<(String, String)>, template: String },
}

impl View for Frontmatter {
    type V = FrontmatterView;

    open spec fn view(&self) -> FrontmatterView {
        match self {
            Frontmatter::Absent { body } => FrontmatterView::Absent { body: body@ },
            Frontmatter::Unclosed => FrontmatterView::Unclosed,
            Frontmatter::Present { entries, template } => FrontmatterView::Present {
                entries: entries.deep_view(),
                template: template@,
            },
        }
    }
}

/// How a file falls apart.
///
/// Byte order marks at the head are dropped, then white space. If what
/// remains opens with `---`, the block runs from there to the first line
/// that begins with `---`, and the template is what follows those three
/// dashes, without the white space at its head.
pub open spec fn split(content: Seq<char>) -> FrontmatterView {
    let body = strip_marks(content);
    let text = trim_start(body);
    if !"---"@.is_prefix_of(text) {
        FrontmatterView::Absent { body }
    } else {
        let rest = text.skip(3);
        match find(rest, "\n---"@) {
            None => FrontmatterView::Unclosed,
            Some(i) => FrontmatterView::Present {
                entries: entries(rest.take(i)),
                template: trim_start(rest.skip(i + 4)),
            },
        }
    }
}

/// The entry that the line `s[from..to]` holds.
fn entry_in(content: &str, s: &Vec<char>, from: usize, to: usize) -> (r: Option<(String, String)>)
    requires
        s@ == content@,
        from <= to <= s.len(),
    ensures
        r.deep_view() == entry_of(s@.subrange(from as int, to as int)),
{
    let (start, end) = trim_bounds(s, from, to);
    let ghost text = s@.subrange(start as int, end as int);
    match index_of_in(s, start, end, ':') {
        Some(colon) => {
            let (key_start, key_end) = trim_bounds(s, start, colon);
            let (value_start, value_end) = trim_bounds(s, colon + 1, end);
            proof {
                assert(text.take(colon - start) =~= s@.subrange(start as int, colon as int));
                assert(text.skip(colon - start + 1) =~= s@.subrange(colon + 1, end as int));
            }
            Some(
                (
                    text_between(content, key_start, key_end),
                    text_between(content, value_start, value_end),
                ),
            )
        },
        None => None,
    }
}

/// The entries of the block `s[from..to]`.
fn entries_in(content: &str, s: &Vec<char>, from: usize, to: usize) -> (r: Vec<(String, String)>)
    requires
        s@ == content@,
        from <= to <= s.len(),
    ensures
        r.deep_view() == entries(s@.subrange(from as int, to as int)),
{
    let ghost block = s@.subrange(from as int, to as int);
    let mut found: Vec<(String, String)> = Vec::new();
    let mut at: usize = from;
    let mut done = false;
    assert(found.deep_view() + entries(block) =~= entries(block));
    while !done
        invariant
            s@ == content@,
            from <= at <= to <= s.len(),
            block == s@.subrange(from as int, to as int),
            !done ==> found.deep_view() + entries(s@.subrange(at as int, to as int)) == entries(
                block,
            ),
            done ==> found.deep_view() == entries(block),
        decreases to - at + if done { 0int } else { 1int },
    {
        let ghost before = found.deep_view();
        let ghost rest = s@.subrange(at as int, to as int);
        match index_of_in(s, at, to, '\n') {
            Some(end) => {
                let entry = entry_in(content, s, at, end);
                proof {
                    assert(rest.take(end - at) =~= s@.subrange(at as int, end as int));
                    assert(rest.skip(end - at + 1) =~= s@.subrange(end + 1, to as int));
                }
                match entry {
                    Some(e) => {
                        found.push(e);
                        assert(found.deep_view() =~= before + entry_seq(entry.deep_view()));
                    },
                    None => {
                        assert(found.deep_view() =~= before + entry_seq(entry.deep_view()));
                    },
                }
                at = end + 1;
                assert(found.deep_view() + entries(s@.subrange(at as int, to as int)) =~= before
                    + entries(rest));
            },
            None => {
                let entry = entry_in(content, s, at, to);
                match entry {
                    Some(e) => {
                        found.push(e);
                        assert(found.deep_view() =~= before + entry_seq(entry.deep_view()));
                    },
                    None => {
                        assert(found.deep_view() =~= before + entry_seq(entry.deep_view()));
                    },
                }
                done = true;
            },
        }
    }
    found
}

/// Takes a file apart at its fences.
pub fn split_frontmatter(content: &str) -> (r: Frontmatter)
    ensures
        r@ == split(content@),
{
    let s = chars_of(content);
    let n = s.len();
    let mut body_start: usize = 0;
    while body_start < n && s[body_start] == BYTE_ORDER_MARK
        invariant
            body_start <= n,
            n == s.len(),
            forall|i: int| 0 <= i < body_start ==> #[trigger] s@[i] == BYTE_ORDER_MARK,
        decreases n - body_start,
    {
        body_start += 1;
    }
    proof {
        lemma_strip_marks(s@, body_start as int);
        assert(s@.skip(body_start as int) =~= s@.subrange(body_start as int, n as int));
    }
    let ghost body = s@.subrange(body_start as int, n as int);
    let text_start = skip_white_space(&s, body_start, n);
    let ghost text = s@.subrange(text_start as int, n as int);
    let fence = chars_of("---");
    let closing = chars_of("\n---");
    proof {
        reveal_strlit("---");
        reveal_strlit("\n---");
    }
    if !stands_at(&s, text_start, n, &fence) {
        proof {
            if "---"@.is_prefix_of(text) {
                assert(text.subrange(0, 3) =~= s@.subrange(text_start as int, text_start + 3));
            }
        }
        return Frontmatter::Absent { body: text_between(content, body_start, n) };
    }
    proof {
        assert(text.subrange(0, 3) =~= s@.subrange(text_start as int, text_start + 3));
        assert(text.skip(3) =~= s@.subrange(text_start + 3, n as int));
    }
    let ghost rest = s@.subrange(text_start + 3, n as int);
    match find_in(&s, text_start + 3, n, &closing) {
        None => Frontmatter::Unclosed,
        Some(at) => {
            let entries = entries_in(content, &s, text_start + 3, at);
            let template_start = skip_white_space(&s, at + 4, n);
            proof {
                let i = at - (text_start + 3);
                assert(rest.take(i) =~= s@.subrange(text_start + 3, at as int));
                assert(rest.skip(i + 4) =~= s@.subrange(at + 4, n as int));
            }
            Frontmatter::Present { entries, template: text_between(content, template_start, n) }
        },
    }
}


/// The lower-case form of an ASCII letter; any other character as it is.
pub open spec fn ascii_lower(c: char) -> char {
    if 'A' <= c <= 'Z' {
        ((c as u8) + 32) as char
    } else {
        c
    }
}

/// Two texts are the same but for the case of their ASCII letters.
pub open spec fn same_ignoring_ascii_case(a: Seq<char>, b: Seq<char>) -> bool {
    &&& a.len() == b.len()
    &&& forall|i: int| 0 <= i < a.len() ==> ascii_lower(a[i]) == ascii_lower(b[i])
}

/// Whether an entry names the file: its key is `name` in some mix of
/// cases, and its value is not empty.
pub open spec fn is_name_entry(entry: (Seq<char>, Seq<char>)) -> bool {
    same_ignoring_ascii_case(entry.0, "name"@) && entry.1.len() > 0
}

/// The value of the first entry of a sequence that names the file.
pub open spec fn first_name_of(found: Seq<(Seq<char>, Seq<char>)>) -> Option<Seq<char>>
    decreases found.len(),
{
    if found.len() == 0 {
        None
    } else if is_name_entry(found[0]) {
        Some(found[0].1)
    } else {
        first_name_of(found.drop_first())
    }
}

/// The name that the front matter of a file gives, if the file has front
/// matter and it names the file.
pub open spec fn frontmatter_name(content: Seq<char>) -> Option<Seq<char>> {
    match split(content) {
        FrontmatterView::Present { entries, template } => first_name_of(entries),
        _ => None,
    }
}

fn lower_ascii(c: char) -> (r: char)
    ensures
        r == ascii_lower(c),
{
    if 'A' <= c && c <= 'Z' {
        ((c as u8) + 32) as char
    } else {
        c
    }
}

/// Whether two texts are the same but for the case of their ASCII letters.
pub fn same_but_for_ascii_case(a: &str, b: &str) -> (r: bool)
    ensures
        r == same_ignoring_ascii_case(a@, b@),
{
    let x = chars_of(a);
    let y = chars_of(b);
    if x.len() != y.len() {
        return false;
    }
    let mut i: usize = 0;
    while i < x.len()
        invariant
            i <= x.len(),
            x.len() == y.len(),
            x@ == a@,
            y@ == b@,
            forall|j: int| 0 <= j < i ==> ascii_lower(x@[j]) == ascii_lower(y@[j]),
        decreases x.len() - i,
    {
        if lower_ascii(x[i]) != lower_ascii(y[i]) {
            return false;
        }
        i += 1;
    }
    true
}

/// The value of the first entry that names the file.
pub fn first_name(found: Vec<(String, String)>) -> (r: Option<String>)
    ensures
        r.deep_view() == first_name_of(found.deep_view()),
{
    let ghost views = found.deep_view();
    let ghost all = found@;
    assert(views.skip(0) =~= views);
    for entry in it: found
        invariant
            it.seq() == all,
            views == found.deep_view(),
            all.len() == views.len(),
            forall|j: int| 0 <= j < all.len() ==> (#[trigger] all[j]).deep_view() == views[j],
            first_name_of(views) == first_name_of(views.skip(it.index() as int)),
    {
        let ghost i = it.index() as int;
        proof {
            assert(all[i].deep_view() == views[i]);
            assert(views.skip(i)[0] == views[i]);
            assert(views.skip(i).drop_first() =~= views.skip(i + 1));
        }
        if same_but_for_ascii_case(entry.0.as_str(), "name") && !entry.1.as_str().is_empty() {
            assert(is_name_entry(views[i]));
            return Some(entry.1);
        }
        assert(!is_name_entry(views[i]));
    }
    assert(views.skip(views.len() as int) =~= Seq::empty());
    None
}


/// What a text becomes when it is put in lower case, as `str::to_lowercase`
/// does it.
pub uninterp spec fn lowercase(s: Seq<char>) -> Seq<char>;

/// Puts a text in lower case, by `str::to_lowercase`.
///
/// Trusted: the body is not verified. The contract gives the result its
/// name and claims no more of it.
#[verifier::external_body]
pub(crate) fn to_lowercase(s: &str) -> (r: String)
    ensures
        r@ == lowercase(s@),
{
    s.to_lowercase()
}

/// The entries with their keys in lower case.
pub open spec fn lowered(fields: Seq<(Seq<char>, Seq<char>)>) -> Seq<(Seq<char>, Seq<char>)> {
    fields.map_values(|e: (Seq<char>, Seq<char>)| (lowercase(e.0), e.1))
}

/// The value of a field: that of the last entry under the key.
pub open spec fn field(fields: Seq<(Seq<char>, Seq<char>)>, key: Seq<char>) -> Option<Seq<char>>
    decreases fields.len(),
{
    if fields.len() == 0 {
        None
    } else if fields.last().0 == key {
        Some(fields.last().1)
    } else {
        field(fields.drop_last(), key)
    }
}

/// The value of a field, or a default where the field is missing.
pub open spec fn field_or(
    fields: Seq<(Seq<char>, Seq<char>)>,
    key: Seq<char>,
    default: Seq<char>,
) -> Seq<char> {
    match field(fields, key) {
        Some(value) => value,
        None => default,
    }
}

/// Puts the key of every entry in lower case.
pub fn lower_keys(fields: Vec<(String, String)>) -> (r: Vec<(String, String)>)
    ensures
        r.deep_view() == lowered(fields.deep_view()),
{
    let ghost views = fields.deep_view();
    let ghost all = fields@;
    let mut lowered_fields: Vec<(String, String)> = Vec::new();
    for entry in it: fields
        invariant
            it.seq() == all,
            all.len() == views.len(),
            forall|j: int| 0 <= j < all.len() ==> (#[trigger] all[j]).deep_view() == views[j],
            lowered_fields.len() == it.index(),
            forall|j: int|
                0 <= j < it.index() ==> (#[trigger] lowered_fields.deep_view()[j]) == (
                    lowercase(views[j].0),
                    views[j].1,
                ),
    {
        let ghost before = lowered_fields.deep_view();
        let key = to_lowercase(entry.0.as_str());
        lowered_fields.push((key, entry.1));
        assert(lowered_fields.deep_view() =~= before.push((lowercase(entry.0@), entry.1@)));
    }
    assert(lowered_fields.deep_view() =~= lowered(views));
    lowered_fields
}

/// Looks a field up.
pub fn field_value(fields: &Vec<(String, String)>, key: &str) -> (r: Option<String>)
    ensures
        r.deep_view() == field(fields.deep_view(), key@),
{
    let ghost all = fields.deep_view();
    let wanted = key.to_owned();
    let mut i: usize = fields.len();
    assert(all.take(i as int) =~= all);
    while i > 0
        invariant
            i <= fields.len(),
            all == fields.deep_view(),
            wanted@ == key@,
            field(all, key@) == field(all.take(i as int), key@),
        decreases i,
    {
        i -= 1;
        proof {
            assert(all.take(i + 1).drop_last() =~= all.take(i as int));
            assert(all.take(i + 1).last() == all[i as int]);
        }
        if fields[i].0 == wanted {
            return Some(fields[i].1.clone());
        }
    }
    assert(all.take(0) =~= Seq::empty());
    None
}

} // verus!
