use vstd::prelude::*;

verus! {

/// The outcome of checking a CSV text: whether it is usable, why, and how many
/// non-blank rows were counted.
#[derive(Clone, Debug, PartialEq, Eq)]
pub struct CsvValidationResult {
    pub is_valid: bool,
    pub message: String,
    pub row_count: usize,
}

/// Whether a character has the Unicode `White_Space` property.
pub uninterp spec fn whitespace_of(c: char) -> bool;

/// Whether a character has the Unicode `Alphabetic` property.
pub uninterp spec fn alphabetic_of(c: char) -> bool;

/// Relies on `char::is_whitespace`: the `White_Space` property of `c`.
#[verifier::external_body]
fn is_whitespace(c: char) -> (r: bool)
    ensures
        r == whitespace_of(c),
{
    c.is_whitespace()
}

/// Relies on `char::is_alphabetic`: the `Alphabetic` property of `c`.
#[verifier::external_body]
fn is_alphabetic(c: char) -> (r: bool)
    ensures
        r == alphabetic_of(c),
{
    c.is_alphabetic()
}

pub open spec fn digit_char(d: nat) -> char {
    seq!['0', '1', '2', '3', '4', '5', '6', '7', '8', '9'][d as int]
}

/// The decimal digits of `n`, most significant first.
pub open spec fn decimal(n: nat) -> Seq<char>
    decreases n,
{
    if n < 10 {
        seq![digit_char(n)]
    } else {
        decimal(n / 10).push(digit_char(n % 10))
    }
}

/// Relies on `usize`'s `to_string`: a number written in decimal digits.
#[verifier::external_body]
fn decimal_string(n: usize) -> (r: String)
    ensures
        r@ == decimal(n as nat),
{
    n.to_string()
}

/// Index of the first newline at or after `from`, or the length of `s`.
pub open spec fn line_end(s: Seq<char>, from: int) -> int
    decreases s.len() - from,
{
    if from >= s.len() {
        s.len() as int
    } else if s[from] == '\n' {
        from
    } else {
        line_end(s, from + 1)
    }
}

/// The line that runs from `start` to `end`; a line closed by a newline
/// loses one carriage return before it.
pub open spec fn line_text(s: Seq<char>, start: int, end: int) -> Seq<char> {
    if end < s.len() && start < end && s[end - 1] == '\r' {
        s.subrange(start, end - 1)
    } else {
        s.subrange(start, end)
    }
}

/// The lines of `s` from `start` on, `pos` being where the scan for the
/// current line's newline stands. A final newline opens no empty line.
pub open spec fn lines_from(s: Seq<char>, start: int, pos: int) -> Seq<Seq<char>>
    decreases s.len() - pos,
{
    if pos >= s.len() {
        if start < s.len() {
            seq![s.subrange(start, s.len() as int)]
        } else {
            Seq::empty()
        }
    } else if s[pos] == '\n' {
        seq![line_text(s, start, pos)] + lines_from(s, pos + 1, pos + 1)
    } else {
        lines_from(s, start, pos + 1)
    }
}

/// The lines of a text, split at `\n` or `\r\n`.
pub open spec fn text_lines(s: Seq<char>) -> Seq<Seq<char>> {
    lines_from(s, 0, 0)
}

pub open spec fn is_blank(l: Seq<char>) -> bool {
    forall|k: int| 0 <= k < l.len() ==> whitespace_of(#[trigger] l[k])
}

pub open spec fn has_comma(l: Seq<char>) -> bool {
    exists|k: int| 0 <= k < l.len() && l[k] == ','
}

/// A row with fewer than two comma-separated columns.
pub open spec fn is_short(l: Seq<char>) -> bool {
    !is_blank(l) && !has_comma(l)
}

/// How many lines are not blank.
pub open spec fn count_rows(ls: Seq<Seq<char>>) -> nat
    decreases ls.len(),
{
    if ls.len() == 0 {
        0
    } else {
        count_rows(ls.drop_last()) + if is_blank(ls.last()) {
            0nat
        } else {
            1nat
        }
    }
}

/// Whether trimming whitespace from both ends of `f` removes position `k`.
pub open spec fn trimmed_away(f: Seq<char>, k: int) -> bool {
    (forall|j: int| 0 <= j <= k ==> whitespace_of(#[trigger] f[j])) || (forall|j: int|
        k <= j < f.len() ==> whitespace_of(#[trigger] f[j]))
}

/// A field that, trimmed, holds only letters, spaces and underscores.
pub open spec fn header_field(f: Seq<char>) -> bool {
    forall|k: int|
        0 <= k < f.len() ==> trimmed_away(f, k) || alphabetic_of(#[trigger] f[k]) || f[k] == ' '
            || f[k] == '_'
}

/// `l[p..q]` is one of the comma-separated fields of `l`.
pub open spec fn is_field(l: Seq<char>, p: int, q: int) -> bool {
    &&& 0 <= p <= q <= l.len()
    &&& (p == 0 || l[p - 1] == ',')
    &&& (q == l.len() || l[q] == ',')
    &&& forall|k: int| p <= k < q ==> l[k] != ','
}

/// Some field of the line looks like a column name.
pub open spec fn header_line(l: Seq<char>) -> bool {
    exists|p: int, q: int| is_field(l, p, q) && header_field(l.subrange(p, q))
}

/// Relies on `str::chars`: the characters of `s`, in order.
#[verifier::external_body]
fn chars_of(s: &str) -> (r: Vec<char>)
    ensures
        r@ == s@,
{
    s.chars().collect()
}

/// Finds the end of the line that starts at `from`.
fn find_line_end(t: &Vec<char>, from: usize) -> (e: usize)
    requires
        from <= t.len(),
    ensures
        e == line_end(t@, from as int),
        from <= e <= t.len(),
        e < t.len() ==> t@[e as int] == '\n',
        forall|k: int| from <= k < e ==> t@[k] != '\n',
{
    let mut j = from;
    while j < t.len() && t[j] != '\n'
        invariant
            from <= j <= t.len(),
            line_end(t@, from as int) == line_end(t@, j as int),
            forall|k: int| from <= k < j ==> t@[k] != '\n',
        decreases t.len() - j,
    {
        j = j + 1;
    }
    j
}

/// Whether `t[from..to]` is all whitespace, and whether it holds a comma.
fn scan_line(t: &Vec<char>, from: usize, to: usize) -> (r: (bool, bool))
    requires
        from <= to <= t.len(),
    ensures
        r.0 == is_blank(t@.subrange(from as int, to as int)),
        r.1 == has_comma(t@.subrange(from as int, to as int)),
{
    let ghost l = t@.subrange(from as int, to as int);
    let mut blank = true;
    let mut comma = false;
    let mut j = from;
    while j < to
        invariant
            from <= j <= to <= t.len(),
            l == t@.subrange(from as int, to as int),
            blank == (forall|k: int| 0 <= k < j - from ==> whitespace_of(#[trigger] l[k])),
            comma == (exists|k: int| 0 <= k < j - from && l[k] == ','),
        decreases to - j,
    {
        let c = t[j];
        assert(l[j - from] == c);
        if !is_whitespace(c) {
            blank = false;
        }
        if c == ',' {
            comma = true;
        }
        j = j + 1;
    }
    (blank, comma)
}

pub open spec fn header_char(c: char) -> bool {
    alphabetic_of(c) || c == ' ' || c == '_'
}

/// Whether the field `t[p..q]`, trimmed, holds only letters, spaces and
/// underscores.
fn header_field_at(t: &Vec<char>, p: usize, q: usize) -> (r: bool)
    requires
        p <= q <= t.len(),
    ensures
        r == header_field(t@.subrange(p as int, q as int)),
{
    let ghost f = t@.subrange(p as int, q as int);
    let mut a = p;
    while a < q && is_whitespace(t[a])
        invariant
            p <= a <= q <= t.len(),
            forall|j: int| p <= j < a ==> whitespace_of(#[trigger] t@[j]),
        decreases q - a,
    {
        a = a + 1;
    }
    let mut b = q;
    while b > a && is_whitespace(t[b - 1])
        invariant
            p <= a <= b <= q <= t.len(),
            a < q ==> !whitespace_of(t@[a as int]),
            forall|j: int| b <= j < q ==> whitespace_of(#[trigger] t@[j]),
        decreases b - a,
    {
        b = b - 1;
    }
    let mut ok = true;
    let mut k = a;
    let ghost mut bad: int = 0;
    while k < b
        invariant
            p <= a <= k <= b <= q <= t.len(),
            ok == (forall|j: int| a <= j < k ==> header_char(#[trigger] t@[j])),
            !ok ==> a <= bad < k && !header_char(t@[bad]),
        decreases b - k,
    {
        let c = t[k];
        if !(is_alphabetic(c) || c == ' ' || c == '_') {
            proof {
                if ok {
                    bad = k as int;
                }
            }
            ok = false;
        }
        k = k + 1;
    }
    proof {
        if ok {
            assert forall|i: int| 0 <= i < f.len() implies trimmed_away(f, i) || alphabetic_of(
                #[trigger] f[i],
            ) || f[i] == ' ' || f[i] == '_' by {
                let j = p + i;
                if j < a {
                    assert forall|m: int| 0 <= m <= i implies whitespace_of(#[trigger] f[m]) by {
                        assert(f[m] == t@[p + m]);
                    }
                } else if j >= b {
                    assert forall|m: int| i <= m < f.len() implies whitespace_of(
                        #[trigger] f[m],
                    ) by {
                        assert(f[m] == t@[p + m]);
                    }
                } else {
                    assert(header_char(t@[j]));
                }
            }
        } else {
            let i = bad - p;
            assert(f[i] == t@[bad]);
            assert(f[a - p] == t@[a as int]);
            assert(!whitespace_of(t@[(b - 1) as int]));
            assert(f[b - 1 - p] == t@[(b - 1) as int]);
            assert(!trimmed_away(f, i));
        }
    }
    ok
}

/// Whether some field of the line `t[from..to]` looks like a column name.
fn header_row(t: &Vec<char>, from: usize, to: usize) -> (r: bool)
    requires
        from <= to <= t.len(),
    ensures
        r == header_line(t@.subrange(from as int, to as int)),
{
    let ghost l = t@.subrange(from as int, to as int);
    let mut p = from;
    loop
        invariant
            from <= p <= to <= t.len(),
            l == t@.subrange(from as int, to as int),
            p == from || t@[p - 1] == ',',
            forall|p2: int, q2: int|
                is_field(l, p2, q2) && p2 < p - from ==> !header_field(
                    #[trigger] l.subrange(p2, q2),
                ),
        decreases to - p,
    {
        let mut q = p;
        while q < to && t[q] != ','
            invariant
                p <= q <= to <= t.len(),
                forall|k: int| p <= k < q ==> t@[k] != ',',
            decreases to - q,
        {
            q = q + 1;
        }
        let ghost p0 = p - from;
        let ghost q0 = q - from;
        assert(l.subrange(p0, q0) =~= t@.subrange(p as int, q as int));
        assert(is_field(l, p0, q0));
        // any field that starts in [p, q] is this one
        assert forall|p2: int, q2: int|
            is_field(l, p2, q2) && p0 <= p2 <= q0 implies p2 == p0 && q2 == q0 by {
            if p2 > p0 {
                assert(l[p2 - 1] == t@[from + p2 - 1]);
            }
            if q2 < q0 {
                assert(l[q2] == t@[from + q2]);
            }
            if q2 > q0 {
                assert(l[q0] == t@[q as int]);
            }
        }
        if header_field_at(t, p, q) {
            return true;
        }
        if q == to {
            assert forall|p2: int, q2: int| is_field(l, p2, q2) implies !header_field(
                #[trigger] l.subrange(p2, q2),
            ) by {
                if p2 >= p0 {
                    assert(p2 == p0 && q2 == q0);
                }
            }
            return false;
        }
        p = q + 1;
    }
}

/// Line `i` is the first row with fewer than two columns.
pub open spec fn first_short(ls: Seq<Seq<char>>, i: int) -> bool {
    &&& 0 <= i < ls.len()
    &&& is_short(ls[i])
    &&& forall|j: int| 0 <= j < i ==> !is_short(#[trigger] ls[j])
}

/// What checking the text `s` yields: validity, message and row count.
pub open spec fn csv_outcome(s: Seq<char>) -> (bool, Seq<char>, nat) {
    let ls = text_lines(s);
    let n = count_rows(ls);
    if ls.len() == 0 {
        (false, "File is empty"@, 0)
    } else if exists|i: int| first_short(ls, i) {
        let i = choose|i: int| first_short(ls, i);
        (
            false,
            "Row "@ + decimal((i + 1) as nat) + " has insufficient columns (minimum 2 required)"@,
            count_rows(ls.take(i)),
        )
    } else if n < 2 {
        (false, "CSV file must have at least 2 rows (header + data)"@, n)
    } else if !is_blank(ls[0]) && header_line(ls[0]) {
        (true, "Valid CSV file with "@ + decimal((n - 1) as nat) + " data rows"@, n)
    } else {
        (true, "Valid CSV file with "@ + decimal(n) + " rows"@, n)
    }
}

/// Scanning on to the end of the current line does not change the lines.
proof fn lemma_scan_line_end(s: Seq<char>, start: int, p: int)
    requires
        0 <= p <= s.len(),
    ensures
        lines_from(s, start, p) == lines_from(s, start, line_end(s, p)),
    decreases s.len() - p,
{
    if p < s.len() && s[p] != '\n' {
        lemma_scan_line_end(s, start, p + 1);
    }
}

/// Checks that a text is a CSV file of at least two rows, each with at
/// least two comma-separated columns, and reports whether its first row
/// is a header.
pub fn validate_csv(content: String) -> (r: CsvValidationResult)
    ensures
        (r.is_valid, r.message@, r.row_count as nat) == csv_outcome(content@),
{
    let t = chars_of(content.as_str());
    let n = t.len();
    let ghost s = t@;
    if n == 0 {
        assert(text_lines(s) =~= Seq::<Seq<char>>::empty());
        return CsvValidationResult {
            is_valid: false,
            message: String::from_str("File is empty"),
            row_count: 0,
        };
    }
    let mut pos: usize = 0;
    let mut rows: usize = 0;
    let mut index: usize = 0;
    let mut header = false;
    let ghost mut done: Seq<Seq<char>> = Seq::empty();
    while pos < n
        invariant
            n == t.len(),
            s == t@,
            s == content@,
            n > 0,
            pos <= n,
            text_lines(s) == done + lines_from(s, pos as int, pos as int),
            index == done.len(),
            index <= pos,
            pos > 0 ==> index > 0,
            rows == count_rows(done),
            rows <= index,
            forall|j: int| 0 <= j < done.len() ==> !is_short(#[trigger] done[j]),
            header == (done.len() > 0 && !is_blank(done[0]) && header_line(done[0])),
        decreases n - pos,
    {
        let e = find_line_end(&t, pos);
        let le = if e < n && pos < e && t[e - 1] == '\r' {
            e - 1
        } else {
            e
        };
        let ghost line = s.subrange(pos as int, le as int);
        proof {
            lemma_scan_line_end(s, pos as int, pos as int);
            assert(line == line_text(s, pos as int, e as int));
            if e < n {
                assert(s[e as int] == '\n');
                assert(lines_from(s, pos as int, e as int) == seq![line] + lines_from(
                    s,
                    e + 1,
                    e + 1,
                ));
                assert(lines_from(s, pos as int, pos as int) == seq![line] + lines_from(
                    s,
                    e + 1,
                    e + 1,
                ));
            } else {
                assert(lines_from(s, pos as int, pos as int) == seq![line]);
                assert(lines_from(s, n as int, n as int) =~= Seq::<Seq<char>>::empty());
            }
        }
        let (blank, comma) = scan_line(&t, pos, le);
        if !blank && !comma {
            let ghost ls = text_lines(s);
            proof {
                assert(ls[index as int] == line);
                assert forall|j: int| 0 <= j < index implies !is_short(#[trigger] ls[j]) by {
                    assert(ls[j] == done[j]);
                }
                assert(first_short(ls, index as int));
                assert forall|i: int| first_short(ls, i) implies i == index by {
                    if i < index {
                        assert(ls[i] == done[i]);
                    }
                }
                assert(ls.take(index as int) =~= done);
            }
            let mut m = String::from_str("Row ");
            let d = decimal_string(index + 1);
            m.append(d.as_str());
            m.append(" has insufficient columns (minimum 2 required)");
            return CsvValidationResult { is_valid: false, message: m, row_count: rows };
        }
        if !blank {
            rows = rows + 1;
            if index == 0 {
                header = header_row(&t, pos, le);
            }
        }
        proof {
            assert(done.push(line).drop_last() =~= done);
            if index == 0 {
                assert(done.push(line)[0] == line);
            } else {
                assert(done.push(line)[0] == done[0]);
            }
            assert forall|j: int| 0 <= j < done.len() + 1 implies !is_short(
                #[trigger] done.push(line)[j],
            ) by {
                if j < done.len() {
                    assert(done.push(line)[j] == done[j]);
                }
            }
            assert(done + (seq![line] + lines_from(s, e + 1, e + 1)) =~= done.push(line)
                + lines_from(s, e + 1, e + 1));
            done = done.push(line);
        }
        index = index + 1;
        pos = if e < n {
            e + 1
        } else {
            n
        };
    }
    proof {
        assert(lines_from(s, n as int, n as int) =~= Seq::<Seq<char>>::empty());
        assert(text_lines(s) =~= done);
        assert(!exists|i: int| first_short(done, i));
    }
    if rows < 2 {
        return CsvValidationResult {
            is_valid: false,
            message: String::from_str("CSV file must have at least 2 rows (header + data)"),
            row_count: rows,
        };
    }
    let mut m = String::from_str("Valid CSV file with ");
    if header {
        let d = decimal_string(rows - 1);
        m.append(d.as_str());
        m.append(" data rows");
    } else {
        let d = decimal_string(rows);
        m.append(d.as_str());
        m.append(" rows");
    }
    CsvValidationResult { is_valid: true, message: m, row_count: rows }
}

} // verus!
