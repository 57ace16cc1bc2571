use vstd::prelude::*;
use vstd::string::*;
use crate::error::GitHydraError;

verus! {

/// One entry of the lookup document: repositories under the account
/// directory `dir` take the Git identity `email`.
pub struct LookupRecord {
    pub dir: String,
    pub email: String,
}

/// Hexadecimal digits, by value.
pub const HEX_DIGITS: &'static str = "0123456789abcdef";

/// Whether `c` is a control character written as a `\u00XX` escape.
pub open spec fn is_coded_control(c: char) -> bool {
    (c as u32) < 32 && c != '\n' && c != '\r' && c != '\t'
}

/// How one character of a string value is written in the document.
pub open spec fn escape_char(c: char) -> Seq<char> {
    if c == '"' {
        "\\\""@
    } else if c == '\\' {
        "\\\\"@
    } else if c == '\n' {
        "\\n"@
    } else if c == '\r' {
        "\\r"@
    } else if c == '\t' {
        "\\t"@
    } else if is_coded_control(c) {
        "\\u00"@ + seq![HEX_DIGITS@[((c as u32) / 16) as int], HEX_DIGITS@[((c as u32) % 16) as int]]
    } else {
        seq![c]
    }
}

/// The body of the JSON string literal holding `s`.
pub open spec fn json_escaped(s: Seq<char>) -> Seq<char>
    decreases s.len(),
{
    if s.len() == 0 {
        Seq::empty()
    } else {
        json_escaped(s.drop_last()) + escape_char(s.last())
    }
}

/// The JSON object of one record.
pub open spec fn record_text(dir: Seq<char>, email: Seq<char>) -> Seq<char> {
    "{\"dir\":\""@ + json_escaped(dir) + "\""@ + ",\"email\":\""@ + json_escaped(email) + "\""@
        + "}"@
}

/// The objects of `records`, separated by commas.
pub open spec fn records_text(records: Seq<LookupRecord>) -> Seq<char>
    decreases records.len(),
{
    if records.len() == 0 {
        Seq::empty()
    } else if records.len() == 1 {
        record_text(records[0].dir@, records[0].email@)
    } else {
        records_text(records.drop_last()) + ","@ + record_text(
            records.last().dir@,
            records.last().email@,
        )
    }
}

/// The lookup document holding `records`, in order: a JSON array of objects
/// with the fields `dir` and `email`.
pub open spec fn lookup_document_text(records: Seq<LookupRecord>) -> Seq<char> {
    "["@ + records_text(records) + "]"@
}

/// Whether the document `doc` stores `records`. An empty file stores no
/// record: it is what an interrupted first run leaves behind.
pub open spec fn stores(doc: Seq<char>, records: Seq<LookupRecord>) -> bool {
    (doc.len() == 0 && records.len() == 0) || lookup_document_text(records) == doc
}

/// The document holding `records` followed by the record (`dir`, `email`).
pub open spec fn document_with(records: Seq<LookupRecord>, dir: Seq<char>, email: Seq<char>) -> Seq<char> {
    "["@ + records_text(records) + (if records.len() == 0 {
        Seq::empty()
    } else {
        ","@
    }) + record_text(dir, email) + "]"@
}

/// The one-character string of the digit of value `v`.
fn hex_digit(v: u32) -> (r: &'static str)
    requires
        v < 16,
    ensures
        r@ == seq![HEX_DIGITS@[v as int]],
{
    proof {
        reveal_strlit("0123456789abcdef");
    }
    let r = HEX_DIGITS.substring_char(v as usize, v as usize + 1);
    assert(r@ =~= seq![HEX_DIGITS@[v as int]]);
    r
}

/// Writes `s` as the body of a JSON string literal.
pub fn escape_json(s: &str) -> (r: String)
    ensures
        r@ == json_escaped(s@),
{
    let n = s.unicode_len();
    let mut r = String::new();
    let mut i: usize = 0;
    while i < n
        invariant
            n == s@.len(),
            i <= n,
            r@ == json_escaped(s@.subrange(0, i as int)),
        decreases n - i,
    {
        let c = s.get_char(i);
        if c == '"' {
            r.append("\\\"");
        } else if c == '\\' {
            r.append("\\\\");
        } else if c == '\n' {
            r.append("\\n");
        } else if c == '\r' {
            r.append("\\r");
        } else if c == '\t' {
            r.append("\\t");
        } else if (c as u32) < 32 {
            r.append("\\u00");
            r.append(hex_digit((c as u32) / 16));
            r.append(hex_digit((c as u32) % 16));
        } else {
            let one = s.substring_char(i, i + 1);
            assert(one@ =~= seq![c]);
            r.append(one);
        }
        assert(s@.subrange(0, i + 1).drop_last() =~= s@.subrange(0, i as int));
        i = i + 1;
    }
    assert(s@.subrange(0, n as int) =~= s@);
    r
}

/// The JSON object of the record (`dir`, `email`).
pub fn record_json(dir: &str, email: &str) -> (r: String)
    ensures
        r@ == record_text(dir@, email@),
{
    let mut r = String::from_str("{\"dir\":\"");
    let d = escape_json(dir);
    r.append(d.as_str());
    r.append("\"");
    r.append(",\"email\":\"");
    let e = escape_json(email);
    r.append(e.as_str());
    r.append("\"");
    r.append("}");
    r
}

/// Serialises `records`, in order, as the lookup document.
pub fn lookup_document(records: &Vec<LookupRecord>) -> (r: String)
    ensures
        r@ == lookup_document_text(records@),
{
    let mut body = String::new();
    let mut i: usize = 0;
    while i < records.len()
        invariant
            i <= records@.len(),
            body@ == records_text(records@.subrange(0, i as int)),
        decreases records@.len() - i,
    {
        let rec = record_json(records[i].dir.as_str(), records[i].email.as_str());
        assert(records@.subrange(0, i + 1).drop_last() =~= records@.subrange(0, i as int));
        if i > 0 {
            body.append(",");
        }
        body.append(rec.as_str());
        i = i + 1;
    }
    assert(records@.subrange(0, records@.len() as int) =~= records@);
    let mut r = String::from_str("[");
    r.append(body.as_str());
    r.append("]");
    r
}

/// Whether `lit` stands in `doc` (of `n` characters) at position `i`.
fn literal_at(doc: &str, n: usize, i: usize, lit: &str) -> (r: bool)
    requires
        n == doc@.len(),
        i <= n,
    ensures
        r == (i + lit@.len() <= n && doc@.subrange(i as int, i + lit@.len()) == lit@),
{
    let m = lit.unicode_len();
    if m > n - i {
        return false;
    }
    assert(doc@.subrange(i as int, i as int) =~= lit@.subrange(0, 0));
    let mut k: usize = 0;
    while k < m
        invariant
            n == doc@.len(),
            m == lit@.len(),
            i + m <= n,
            k <= m,
            doc@.subrange(i as int, i + k) == lit@.subrange(0, k as int),
        decreases m - k,
    {
        if doc.get_char(i + k) != lit.get_char(k) {
            assert(doc@.subrange(i as int, i + m)[k as int] != lit@[k as int]);
            return false;
        }
        assert(doc@.subrange(i as int, i + k + 1) =~= doc@.subrange(i as int, i + k).push(
            doc@[i + k],
        ));
        assert(lit@.subrange(0, k + 1) =~= lit@.subrange(0, k as int).push(lit@[k as int]));
        k = k + 1;
    }
    assert(lit@.subrange(0, m as int) =~= lit@);
    true
}

/// The value of the hexadecimal digit `d`, if it is one.
fn hex_value(d: char) -> (r: Option<u32>)
    ensures
        r is Some ==> r->0 < 16 && HEX_DIGITS@[r->0 as int] == d,
        forall|x: int| 0 <= x < 16 && #[trigger] HEX_DIGITS@[x] == d ==> r == Some(x as u32),
{
    proof {
        reveal_strlit("0123456789abcdef");
    }
    let mut v: u32 = 0;
    while v < 16
        invariant
            v <= 16,
            HEX_DIGITS@ == "0123456789abcdef"@,
            HEX_DIGITS@.len() == 16,
            forall|x: int| 0 <= x < v ==> HEX_DIGITS@[x] != d,
        decreases 16 - v,
    {
        if HEX_DIGITS.get_char(v as usize) == d {
            proof {
                reveal_strlit("0123456789abcdef");
                assert(HEX_DIGITS@ =~= seq![
                    '0', '1', '2', '3', '4', '5', '6', '7', '8', '9', 'a', 'b', 'c', 'd', 'e', 'f',
                ]);
            }
            return Some(v);
        }
        v = v + 1;
    }
    None
}

/// What the written form of a character looks like: a plain character, a
/// two-character escape, or a `\u00XX` escape of a control character.
proof fn lemma_escape_shape(ch: char)
    ensures
        ({
            let e = escape_char(ch);
            &&& e.len() >= 1
            &&& e[0] != '"'
            &&& e[0] != '\\' ==> e == seq![ch] && (ch as u32) >= 32
            &&& e[0] == '\\' ==> e.len() >= 2
            &&& e[0] == '\\' && e[1] == '"' ==> ch == '"' && e.len() == 2
            &&& e[0] == '\\' && e[1] == '\\' ==> ch == '\\' && e.len() == 2
            &&& e[0] == '\\' && e[1] == 'n' ==> ch == '\n' && e.len() == 2
            &&& e[0] == '\\' && e[1] == 'r' ==> ch == '\r' && e.len() == 2
            &&& e[0] == '\\' && e[1] == 't' ==> ch == '\t' && e.len() == 2
            &&& e[0] == '\\' ==> (e[1] == '"' || e[1] == '\\' || e[1] == 'n' || e[1] == 'r' || e[1]
                == 't' || e[1] == 'u')
            &&& e[0] == '\\' && e[1] == 'u' ==> e.len() == 6 && e[2] == '0' && e[3] == '0' && e[4]
                == HEX_DIGITS@[((ch as u32) / 16) as int] && e[5] == HEX_DIGITS@[((ch as u32)
                % 16) as int] && is_coded_control(ch)
        }),
{
    reveal_strlit("\\\"");
    reveal_strlit("\\\\");
    reveal_strlit("\\n");
    reveal_strlit("\\r");
    reveal_strlit("\\t");
    reveal_strlit("\\u00");
}

/// The written form of a prefix of `t` is a prefix of the written form of `t`.
proof fn lemma_escaped_prefix(t: Seq<char>, k: int)
    requires
        0 <= k <= t.len(),
    ensures
        json_escaped(t.subrange(0, k)).len() <= json_escaped(t).len(),
        json_escaped(t).subrange(0, json_escaped(t.subrange(0, k)).len() as int) == json_escaped(
            t.subrange(0, k),
        ),
    decreases t.len() - k,
{
    if k == t.len() {
        assert(t.subrange(0, k) =~= t);
        assert(json_escaped(t).subrange(0, json_escaped(t).len() as int) =~= json_escaped(t));
    } else {
        let u = t.drop_last();
        lemma_escaped_prefix(u, k);
        assert(u.subrange(0, k) =~= t.subrange(0, k));
        let p = json_escaped(t.subrange(0, k));
        assert(json_escaped(t) == json_escaped(u) + escape_char(t.last()));
        assert(json_escaped(t).subrange(0, p.len() as int) =~= json_escaped(u).subrange(
            0,
            p.len() as int,
        ));
    }
}

/// A character is determined by its code.
proof fn lemma_char_code(a: char, b: char)
    requires
        a as u32 == b as u32,
    ensures
        a == b,
{
}

proof fn lemma_escaped_push(s: Seq<char>, c: char)
    ensures
        json_escaped(s.push(c)) == json_escaped(s) + escape_char(c),
{
    assert(s.push(c).drop_last() =~= s);
}

/// The control characters, by code.
const CONTROL_CHARS: &'static str = "\u{0}\u{1}\u{2}\u{3}\u{4}\u{5}\u{6}\u{7}\u{8}\u{9}\u{a}\u{b}\u{c}\u{d}\u{e}\u{f}\u{10}\u{11}\u{12}\u{13}\u{14}\u{15}\u{16}\u{17}\u{18}\u{19}\u{1a}\u{1b}\u{1c}\u{1d}\u{1e}\u{1f}";

/// The one-character string of the control character with code `v`.
fn control_char(v: u32) -> (r: &'static str)
    requires
        v < 32,
    ensures
        r@.len() == 1,
        r@[0] as u32 == v,
{
    proof {
        reveal_strlit("\u{0}\u{1}\u{2}\u{3}\u{4}\u{5}\u{6}\u{7}\u{8}\u{9}\u{a}\u{b}\u{c}\u{d}\u{e}\u{f}\u{10}\u{11}\u{12}\u{13}\u{14}\u{15}\u{16}\u{17}\u{18}\u{19}\u{1a}\u{1b}\u{1c}\u{1d}\u{1e}\u{1f}");
    }
    let r = CONTROL_CHARS.substring_char(v as usize, v as usize + 1);
    assert(r@ =~= seq![CONTROL_CHARS@[v as int]]);
    r
}

/// The character that the escape `\` `e` stands for, as a string.
fn unescape(e: char) -> (r: Option<&'static str>)
    ensures
        r is Some ==> r->0@.len() == 1 && escape_char(r->0@[0]) == seq!['\\', e],
        r is None <==> !(e == '"' || e == '\\' || e == 'n' || e == 'r' || e == 't'),
        e == '"' ==> r is Some && r->0@[0] == '"',
        e == '\\' ==> r is Some && r->0@[0] == '\\',
        e == 'n' ==> r is Some && r->0@[0] == '\n',
        e == 'r' ==> r is Some && r->0@[0] == '\r',
        e == 't' ==> r is Some && r->0@[0] == '\t',
{
    proof {
        reveal_strlit("\"");
        reveal_strlit("\\");
        reveal_strlit("\n");
        reveal_strlit("\r");
        reveal_strlit("\t");
        reveal_strlit("\\\"");
        reveal_strlit("\\\\");
        reveal_strlit("\\n");
        reveal_strlit("\\r");
        reveal_strlit("\\t");
    }
    if e == '"' {
        Some("\"")
    } else if e == '\\' {
        Some("\\")
    } else if e == 'n' {
        Some("\n")
    } else if e == 'r' {
        Some("\r")
    } else if e == 't' {
        Some("\t")
    } else {
        None
    }
}

/// Reads the body of a string literal that starts at `start` in `doc` (of `n`
/// characters), up to and including its closing quote; `None` where it is not
/// written as `escape_json` writes it. Gives the value and the position after
/// the quote.
/// Whether the literal body of `t`, then its closing quote, stands in `doc`
/// at `start`.
pub open spec fn string_at(doc: Seq<char>, start: int, t: Seq<char>) -> bool {
    let e = json_escaped(t);
    &&& 0 <= start
    &&& start + e.len() < doc.len()
    &&& doc.subrange(start, start + e.len()) == e
    &&& doc[start + e.len()] == '"'
}

fn read_json_string(doc: &str, n: usize, start: usize, Ghost(t): Ghost<Seq<char>>) -> (r: Option<(String, usize)>)
    requires
        n == doc@.len(),
        start <= n,
    ensures
        r is Some ==> ({
            let (s, end) = r->0;
            &&& start < end <= n
            &&& doc@.subrange(start as int, end as int) == json_escaped(s@) + "\""@
        }),
        string_at(doc@, start as int, t) ==> r is Some && ({
            let (s, end) = r->0;
            s@ == t && end == start + json_escaped(t).len() + 1
        }),
{
    let mut s = String::new();
    let mut j: usize = start;
    assert(doc@.subrange(start as int, start as int) =~= json_escaped(s@));
    while j < n
        invariant
            n == doc@.len(),
            start <= j <= n,
            doc@.subrange(start as int, j as int) == json_escaped(s@),
            string_at(doc@, start as int, t) ==> s@.len() <= t.len() && s@ == t.subrange(
                0,
                s@.len() as int,
            ),
        decreases n - j,
    {
        let c = doc.get_char(j);
        let ghost old_s = s@;
        let ghost k = s@.len() as int;
        let ghost str_at = string_at(doc@, start as int, t);
        let ghost tk: char = if k < t.len() { t[k] } else { ' ' };
        proof {
            if str_at {
                lemma_escaped_prefix(t, k);
                let et = json_escaped(t);
                assert(doc@.subrange(start as int, j as int).len() == json_escaped(old_s).len());
                if k == t.len() {
                    assert(t.subrange(0, k) =~= t);
                    assert(j == start + et.len());
                } else {
                    lemma_escaped_prefix(t, k + 1);
                    assert(t.subrange(0, k + 1).drop_last() =~= t.subrange(0, k));
                    let e = escape_char(t[k]);
                    assert(json_escaped(t.subrange(0, k + 1)) == json_escaped(old_s) + e);
                    let pre = json_escaped(t.subrange(0, k + 1));
                    assert forall|x: int| 0 <= x < e.len() implies doc@[j + x] == e[x] by {
                        assert(pre[json_escaped(old_s).len() + x] == e[x]);
                        assert(et.subrange(0, pre.len() as int)[json_escaped(old_s).len() + x]
                            == pre[json_escaped(old_s).len() + x]);
                        assert(doc@.subrange(start as int, start + et.len())[j - start + x]
                            == et[j - start + x]);
                    }
                    lemma_escape_shape(t[k]);
                    assert(j + e.len() <= start + et.len());
                }
            }
        }
        proof {
            reveal_strlit("\"");
        }
        if c == '"' {
            assert(doc@.subrange(start as int, j + 1) =~= doc@.subrange(start as int, j as int)
                + "\""@);
            proof {
                if str_at {
                    assert(k == t.len());
                    assert(s@ =~= t);
                }
            }
            return Some((s, j + 1));
        } else if c == '\\' {
            if j + 1 >= n {
                return None;
            }
            let e = doc.get_char(j + 1);
            if e == 'u' {
                if n - j < 6 || doc.get_char(j + 2) != '0' || doc.get_char(j + 3) != '0' {
                    return None;
                }
                let d1 = doc.get_char(j + 4);
                let d2 = doc.get_char(j + 5);
                let (h, l) = match (hex_value(d1), hex_value(d2)) {
                    (Some(h), Some(l)) => (h, l),
                    _ => return None,
                };
                let v = 16 * h + l;
                proof {
                    if str_at {
                        assert(h == (tk as u32) / 16);
                        assert(l == (tk as u32) % 16);
                        assert(v == tk as u32);
                        assert('\n' as u32 == 10 && '\r' as u32 == 13 && '\t' as u32 == 9);
                        if v == 10 {
                            lemma_char_code(tk, '\n');
                        }
                        if v == 13 {
                            lemma_char_code(tk, '\r');
                        }
                        if v == 9 {
                            lemma_char_code(tk, '\t');
                        }
                    }
                }
                if v >= 32 || v == 9 || v == 10 || v == 13 {
                    return None;
                }
                let piece = control_char(v);
                s.append(piece);
                proof {
                    reveal_strlit("\\u00");
                    let ch = piece@[0];
                    assert(piece@ =~= seq![ch]);
                    assert(s@ =~= old_s.push(ch));
                    lemma_escaped_push(old_s, ch);
                    assert(ch != '\n' && ch != '\r' && ch != '\t');
                    assert(is_coded_control(ch));
                    assert((ch as u32) / 16 == h && (ch as u32) % 16 == l);
                    assert(doc@.subrange(j as int, j + 6) =~= escape_char(ch));
                    assert(doc@.subrange(start as int, j + 6) =~= doc@.subrange(start as int, j as int)
                        + doc@.subrange(j as int, j + 6));
                    if str_at {
                        assert(ch as u32 == tk as u32);
                        lemma_char_code(ch, tk);
                        assert(s@ =~= t.subrange(0, k + 1));
                    }
                }
                j = j + 6;
            } else {
                let piece = match unescape(e) {
                    Some(piece) => piece,
                    None => return None,
                };
                s.append(piece);
                proof {
                    let ch = piece@[0];
                    assert(piece@ =~= seq![ch]);
                    assert(s@ =~= old_s.push(ch));
                    lemma_escaped_push(old_s, ch);
                    assert(doc@.subrange(j as int, j + 2) =~= seq![c, e]);
                    assert(doc@.subrange(start as int, j + 2) =~= doc@.subrange(start as int, j as int)
                        + doc@.subrange(j as int, j + 2));
                    if str_at {
                        assert(ch == tk);
                        assert(s@ =~= t.subrange(0, k + 1));
                    }
                }
                j = j + 2;
            }
        } else if (c as u32) < 32 {
            return None;
        } else {
            let one = doc.substring_char(j, j + 1);
            assert(one@ =~= seq![c]);
            s.append(one);
            proof {
                assert(c != '\n' && c != '\r' && c != '\t');
                assert(escape_char(c) == seq![c]);
                assert(s@ =~= old_s.push(c));
                lemma_escaped_push(old_s, c);
                assert(doc@.subrange(start as int, j + 1) =~= doc@.subrange(start as int, j as int)
                    + seq![c]);
                if str_at {
                    assert(c == tk);
                    assert(s@ =~= t.subrange(0, k + 1));
                }
            }
            j = j + 1;
        }
    }
    proof {
        if string_at(doc@, start as int, t) {
            lemma_escaped_prefix(t, s@.len() as int);
            assert(doc@.subrange(start as int, j as int).len() == j - start);
        }
    }
    None
}

/// The objects of the first `m` records open the objects of all of them,
/// and a comma follows where more records come.
proof fn lemma_records_prefix(records: Seq<LookupRecord>, m: int)
    requires
        1 <= m <= records.len(),
    ensures
        records_text(records.subrange(0, m)).len() <= records_text(records).len(),
        records_text(records).subrange(0, records_text(records.subrange(0, m)).len() as int)
            == records_text(records.subrange(0, m)),
        m < records.len() ==> records_text(records.subrange(0, m)).len() < records_text(records).len(),
        m < records.len() ==> records_text(records)[records_text(records.subrange(0, m)).len() as int]
            == ',',
    decreases records.len() - m,
{
    reveal_strlit(",");
    let p = records_text(records.subrange(0, m));
    if m == records.len() {
        assert(records.subrange(0, m) =~= records);
        assert(records_text(records).subrange(0, p.len() as int) =~= p);
    } else {
        let u = records.drop_last();
        assert(u.subrange(0, m) =~= records.subrange(0, m));
        let whole = records_text(records);
        assert(whole == records_text(u) + ","@ + record_text(
            records.last().dir@,
            records.last().email@,
        ));
        if m == u.len() {
            assert(u.subrange(0, m) =~= u);
            assert(whole.subrange(0, p.len() as int) =~= p);
        } else {
            lemma_records_prefix(u, m);
            assert(whole.subrange(0, p.len() as int) =~= records_text(u).subrange(0, p.len() as int));
            assert(whole[p.len() as int] == records_text(u)[p.len() as int]);
        }
    }
}

/// Where the parts of the object of the record (`dir`, `email`) stand, when
/// the object stands in `doc` at `i`.
proof fn lemma_record_parts(doc: Seq<char>, i: int, dir: Seq<char>, email: Seq<char>)
    requires
        0 <= i,
        i + record_text(dir, email).len() <= doc.len(),
        doc.subrange(i, i + record_text(dir, email).len()) == record_text(dir, email),
    ensures
        ({
            let l1 = "{\"dir\":\""@;
            let l2 = ",\"email\":\""@;
            let a = l1.len() as int;
            let b = a + json_escaped(dir).len();
            let c = b + 1 + l2.len();
            let d = c + json_escaped(email).len();
            &&& record_text(dir, email).len() == d + 2
            &&& doc.subrange(i, i + a) == l1
            &&& string_at(doc, i + a, dir)
            &&& doc.subrange(i + b + 1, i + c) == l2
            &&& string_at(doc, i + c, email)
            &&& doc.subrange(i + d + 1, i + d + 2) == "}"@
        }),
{
    reveal_strlit("\"");
    reveal_strlit("}");
    let rt = record_text(dir, email);
    let l1 = "{\"dir\":\""@;
    let l2 = ",\"email\":\""@;
    let e1 = json_escaped(dir);
    let e2 = json_escaped(email);
    let a = l1.len() as int;
    let b = a + e1.len();
    let c = b + 1 + l2.len();
    let d = c + e2.len();
    assert(rt.len() == d + 2);
    assert forall|x: int| 0 <= x < rt.len() implies doc[i + x] == rt[x] by {
        assert(doc.subrange(i, i + rt.len())[x] == doc[i + x]);
    }
    assert(doc.subrange(i, i + a) =~= l1) by {
        assert(rt.subrange(0, a) =~= l1);
    }
    assert(doc.subrange(i + a, i + b) =~= e1) by {
        assert(rt.subrange(a, b) =~= e1);
    }
    assert(doc[i + b] == '"') by {
        assert(rt.subrange(b, b + 1) =~= "\""@);
        assert(rt[b] == rt.subrange(b, b + 1)[0]);
    }
    assert(doc.subrange(i + b + 1, i + c) =~= l2) by {
        assert(rt.subrange(b + 1, c) =~= l2);
    }
    assert(doc.subrange(i + c, i + d) =~= e2) by {
        assert(rt.subrange(c, d) =~= e2);
    }
    assert(doc[i + d] == '"') by {
        assert(rt.subrange(d, d + 1) =~= "\""@);
        assert(rt[d] == rt.subrange(d, d + 1)[0]);
    }
    assert(doc.subrange(i + d + 1, i + d + 2) =~= "}"@) by {
        assert(rt.subrange(d + 1, d + 2) =~= "}"@);
    }
}

/// Where the object of record `k` stands in the document of `records`, when
/// it starts at `i`, and what follows it.
proof fn lemma_record_slot(doc: Seq<char>, rs: Seq<LookupRecord>, k: int, i: int)
    requires
        lookup_document_text(rs) == doc,
        0 <= k < rs.len(),
        i == 1 + records_text(rs.subrange(0, k)).len() + (if k == 0 {
            0int
        } else {
            1int
        }),
    ensures
        ({
            let rt = record_text(rs[k].dir@, rs[k].email@);
            let next = i + rt.len();
            &&& next <= doc.len()
            &&& doc.subrange(i, next) == rt
            &&& next == 1 + records_text(rs.subrange(0, k + 1)).len()
            &&& k + 1 == rs.len() ==> next + 1 == doc.len() && doc.subrange(next, next + 1) == "]"@
            &&& k + 1 < rs.len() ==> next + 1 <= doc.len() && doc.subrange(next, next + 1) == ","@
        }),
{
    reveal_strlit(",");
    reveal_strlit("[");
    reveal_strlit("]");
    let rt = record_text(rs[k].dir@, rs[k].email@);
    lemma_records_prefix(rs, k + 1);
    let body = records_text(rs);
    let pre = records_text(rs.subrange(0, k));
    let pre1 = records_text(rs.subrange(0, k + 1));
    assert(rs.subrange(0, k + 1).drop_last() =~= rs.subrange(0, k));
    if k == 0 {
        assert(pre1 == rt);
    } else {
        assert(pre1 == pre + ","@ + rt);
    }
    let off = i - 1 - pre.len();
    assert(doc == "["@ + body + "]"@);
    assert(doc.subrange(i, i + rt.len()) =~= rt) by {
        assert forall|x: int| 0 <= x < rt.len() implies doc[i + x] == rt[x] by {
            assert(pre1[pre.len() + off + x] == rt[x]);
            assert(body.subrange(0, pre1.len() as int)[pre.len() + off + x] == pre1[pre.len() + off
                + x]);
            assert(doc[1 + pre.len() + off + x] == body[pre.len() + off + x]);
        }
    }
    let next = i + rt.len();
    if k + 1 == rs.len() {
        assert(rs.subrange(0, k + 1) =~= rs);
        assert(doc.subrange(next, next + 1) =~= "]"@);
    } else {
        assert(body[pre1.len() as int] == ',');
        assert(doc[1 + pre1.len() as int] == body[pre1.len() as int]);
        assert(doc.subrange(next, next + 1) =~= ","@);
    }
}

/// Reads the lookup document `doc`: the records it holds, in order, or `None`
/// where it is not a document that `lookup_document` writes.
#[verifier::rlimit(100)]
pub fn parse_lookup_document(doc: &str) -> (r: Option<Vec<LookupRecord>>)
    ensures
        r is Some ==> lookup_document_text(r->0@) == doc@,
        (exists|records: Seq<LookupRecord>| lookup_document_text(records) == doc@) ==> r is Some,
        doc@ == "[]"@ ==> r is Some && r->0@.len() == 0,
{
    let n = doc.unicode_len();
    let ghost has = exists|records: Seq<LookupRecord>| lookup_document_text(records) == doc@;
    let ghost rs: Seq<LookupRecord> = if has {
        choose|records: Seq<LookupRecord>| lookup_document_text(records) == doc@
    } else {
        Seq::empty()
    };
    proof {
        reveal_strlit("[]");
        reveal_strlit("[");
        reveal_strlit("]");
        if has {
            assert(doc@[0] == '[');
            assert(doc@.subrange(0, 1) =~= "["@);
            if rs.len() == 0 {
                assert(doc@ =~= "[]"@);
            }
        }
    }
    proof {
        reveal_strlit("[]");
        reveal_strlit("[");
        reveal_strlit("]");
        if doc@ == "[]"@ {
            assert(doc@.subrange(0, 1) =~= "["@);
            assert(doc@.subrange(1, 2) =~= "]"@);
        }
    }
    if !literal_at(doc, n, 0, "[") {
        return None;
    }
    let mut records: Vec<LookupRecord> = Vec::new();
    proof {
        reveal_strlit("[");
        reveal_strlit("]");
        reveal_strlit(",");
    }
    if n == 2 && literal_at(doc, n, 1, "]") {
        assert(doc@ =~= lookup_document_text(records@));
        return Some(records);
    }
    let mut i: usize = 1;
    loop
        invariant
            n == doc@.len(),
            1 <= i <= n,
            doc@ != "[]"@,
            has == (exists|records: Seq<LookupRecord>| lookup_document_text(records) == doc@),
            has ==> lookup_document_text(rs) == doc@ && rs.len() >= 1 && records@.len() < rs.len()
                && i == 1 + records_text(rs.subrange(0, records@.len() as int)).len() + (if records@.len()
                == 0 {
                0int
            } else {
                1int
            }),
            doc@.subrange(0, i as int) == "["@ + records_text(records@) + (if records@.len() == 0 {
                Seq::empty()
            } else {
                ","@
            }),
        decreases n - i,
    {
        proof {
            reveal_strlit("]");
            reveal_strlit(",");
        }
        let ghost k = records@.len() as int;
        let ghost dir_t: Seq<char> = if has { rs[k].dir@ } else { Seq::empty() };
        let ghost email_t: Seq<char> = if has { rs[k].email@ } else { Seq::empty() };
        proof {
            if has {
                lemma_record_slot(doc@, rs, k, i as int);
                lemma_record_parts(doc@, i as int, rs[k].dir@, rs[k].email@);
                let rt = record_text(rs[k].dir@, rs[k].email@);
                assert(i + rt.len() <= n);
                assert(i + "{\"dir\":\""@.len() <= n);
                assert(doc@.subrange(i as int, i + "{\"dir\":\""@.len()) == "{\"dir\":\""@);
            }
        }
        if !literal_at(doc, n, i, "{\"dir\":\"") {
            return None;
        }
        let i1 = i + "{\"dir\":\"".unicode_len();
        let (dir, i2) = match read_json_string(doc, n, i1, Ghost(dir_t)) {
            Some(p) => p,
            None => return None,
        };
        if !literal_at(doc, n, i2, ",\"email\":\"") {
            return None;
        }
        let i3 = i2 + ",\"email\":\"".unicode_len();
        let (email, i4) = match read_json_string(doc, n, i3, Ghost(email_t)) {
            Some(p) => p,
            None => return None,
        };
        if !literal_at(doc, n, i4, "}") {
            return None;
        }
        let i5 = i4 + "}".unicode_len();
        let ghost before = records@;
        let ghost prefix = doc@.subrange(0, i as int);
        records.push(LookupRecord { dir, email });
        proof {
            let rec = records@.last();
            assert(records@.drop_last() =~= before);
            assert(doc@.subrange(i as int, i5 as int) =~= record_text(rec.dir@, rec.email@)) by {
                assert(doc@.subrange(i as int, i5 as int) =~= doc@.subrange(i as int, i1 as int)
                    + doc@.subrange(i1 as int, i2 as int) + doc@.subrange(i2 as int, i3 as int)
                    + doc@.subrange(i3 as int, i4 as int) + doc@.subrange(i4 as int, i5 as int));
            }
            assert(doc@.subrange(0, i5 as int) =~= prefix + doc@.subrange(i as int, i5 as int));
            if before.len() == 0 {
                assert(records_text(records@) == record_text(rec.dir@, rec.email@));
            }
            assert(doc@.subrange(0, i5 as int) =~= "["@ + records_text(records@));
        }
        if i5 == n - 1 && literal_at(doc, n, i5, "]") {
            assert(doc@ =~= doc@.subrange(0, i5 as int) + doc@.subrange(i5 as int, n as int));
            return Some(records);
        }
        if !literal_at(doc, n, i5, ",") {
            return None;
        }
        assert(doc@.subrange(0, i5 + 1) =~= doc@.subrange(0, i5 as int) + doc@.subrange(
            i5 as int,
            i5 + 1,
        ));
        i = i5 + 1;
    }
}

/// The lookup document `doc`, stored at `path`, with the record (`dir`,
/// `email`) added after those it holds; a configuration error where `doc`
/// is neither empty nor a document that `lookup_document` writes.
pub fn updated_lookup_document(doc: &str, path: &str, dir: &str, email: &str) -> (r: Result<
    String,
    GitHydraError,
>)
    ensures
        r is Ok <==> (doc@.len() == 0 || exists|records: Seq<LookupRecord>|
            lookup_document_text(records) == doc@),
        r is Ok ==> exists|records: Seq<LookupRecord>|
            #[trigger] stores(doc@, records) && r->Ok_0@ == document_with(records, dir@, email@),
        r is Err ==> (r matches Err(GitHydraError::ConfigurationError { error })
            && error@ == "Lookup document is not a JSON array of records: "@ + path@),
{
    let mut records = if doc.unicode_len() == 0 {
        Vec::new()
    } else {
        match parse_lookup_document(doc) {
            Some(records) => records,
            None => {
                let mut error = String::from_str("Lookup document is not a JSON array of records: ");
                error.append(path);
                return Err(GitHydraError::ConfigurationError { error });
            },
        }
    };
    let ghost stored = records@;
    assert(stores(doc@, stored));
    let rec = LookupRecord { dir: String::from_str(dir), email: String::from_str(email) };
    records.push(rec);
    let updated = lookup_document(&records);
    proof {
        lemma_add_record_appends(stored, records@.last());
        assert(stored.push(records@.last()) =~= records@);
    }
    Ok(updated)
}

/// Where the updated lookup document is written before it is renamed over
/// the one at `path`, so that a reader never sees half a document.
pub fn staging_path(path: &str) -> (r: String)
    ensures
        r@ == path@ + ".tmp"@,
{
    let mut r = String::from_str(path);
    r.append(".tmp");
    r
}

/// Adding a record to the document of `records` keeps the records already
/// stored, in their order, and puts the new one last.
pub proof fn lemma_add_record_appends(records: Seq<LookupRecord>, rec: LookupRecord)
    ensures
        lookup_document_text(records.push(rec)) == document_with(records, rec.dir@, rec.email@),
{
    let pushed = records.push(rec);
    assert(pushed.drop_last() =~= records);
    if records.len() == 0 {
        assert(records_text(pushed) == record_text(rec.dir@, rec.email@));
        assert(lookup_document_text(pushed) =~= document_with(records, rec.dir@, rec.email@));
    } else {
        assert(records_text(pushed) == records_text(records) + ","@ + record_text(
            rec.dir@,
            rec.email@,
        ));
        assert(lookup_document_text(pushed) =~= document_with(records, rec.dir@, rec.email@));
    }
}

} // verus!
