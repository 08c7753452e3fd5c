//! Verified string utilities: decimal rendering and character pushing.

use vstd::prelude::*;

verus! {

/// The ten decimal digit characters, by value.
pub open spec fn digit_char(d: nat) -> char {
    if d == 0 {
        '0'
    } else if d == 1 {
        '1'
    } else if d == 2 {
        '2'
    } else if d == 3 {
        '3'
    } else if d == 4 {
        '4'
    } else if d == 5 {
        '5'
    } else if d == 6 {
        '6'
    } else if d == 7 {
        '7'
    } else if d == 8 {
        '8'
    } else {
        '9'
    }
}

/// The decimal representation of a non-negative integer, most significant
/// digit first, without leading zeros (zero itself is "0").
pub open spec fn dec_digits(n: nat) -> Seq<char>
    decreases n,
{
    if n < 10 {
        seq![digit_char(n)]
    } else {
        dec_digits(n / 10).push(digit_char(n % 10))
    }
}

/// Relies on String::push: appends exactly the given character.
#[verifier::external_body]
pub(crate) fn push_char(s: &mut String, c: char)
    ensures
        final(s)@ == old(s)@.push(c),
{
    s.push(c)
}

fn digit_to_char(d: u64) -> (c: char)
    requires
        d < 10,
    ensures
        c == digit_char(d as nat),
{
    if d == 0 {
        '0'
    } else if d == 1 {
        '1'
    } else if d == 2 {
        '2'
    } else if d == 3 {
        '3'
    } else if d == 4 {
        '4'
    } else if d == 5 {
        '5'
    } else if d == 6 {
        '6'
    } else if d == 7 {
        '7'
    } else if d == 8 {
        '8'
    } else {
        '9'
    }
}

/// An ASCII uppercase letter.
pub open spec fn is_ascii_uppercase_char(c: char) -> bool {
    65 <= c as u32 && c as u32 <= 90
}

/// An ASCII lowercase letter.
pub open spec fn is_ascii_lowercase_char(c: char) -> bool {
    97 <= c as u32 && c as u32 <= 122
}

/// No character of the sequence is an ASCII uppercase letter.
pub open spec fn no_ascii_uppercase(s: Seq<char>) -> bool {
    forall|i: int| 0 <= i < s.len() ==> !is_ascii_uppercase_char(#[trigger] s[i])
}

/// Every character of the sequence is an ASCII lowercase letter.
pub open spec fn ascii_lowercase_seq(s: Seq<char>) -> bool {
    forall|i: int| 0 <= i < s.len() ==> is_ascii_lowercase_char(#[trigger] s[i])
}

/// `t` is a suffix of `s`.
pub open spec fn ends_with(s: Seq<char>, t: Seq<char>) -> bool {
    s.len() >= t.len() && s.subrange(s.len() - t.len(), s.len() as int) == t
}

/// What str::to_lowercase returns: the Unicode lowercase mapping, a function
/// of the characters alone.
pub uninterp spec fn lower_of(s: Seq<char>) -> Seq<char>;

/// Relies on str::to_lowercase: the result depends on the characters alone;
/// an empty string stays empty; the result, being lowercase by the Unicode
/// property, holds no ASCII uppercase letter (no character's lowercase
/// mapping produces one); and since the mapping works character by
/// character, left to right, and every ASCII lowercase letter maps to
/// itself, a trailing run of ASCII lowercase letters comes through
/// unchanged.
#[verifier::external_body]
pub(crate) fn lowercase(s: &str) -> (r: String)
    ensures
        r@ == lower_of(s@),
        s@.len() == 0 ==> r@.len() == 0,
        no_ascii_uppercase(r@),
        forall|t: Seq<char>|
            #[trigger] ends_with(s@, t) && ascii_lowercase_seq(t) ==> ends_with(r@, t),
{
    s.to_lowercase()
}

/// Renders an unsigned integer in decimal.
pub fn u64_to_string(n: u64) -> (r: String)
    ensures
        r@ == dec_digits(n as nat),
    decreases n,
{
    if n < 10 {
        let mut s = String::new();
        push_char(&mut s, digit_to_char(n));
        proof {
            assert(s@ =~= seq![digit_char(n as nat)]);
        }
        s
    } else {
        let mut s = u64_to_string(n / 10);
        push_char(&mut s, digit_to_char(n % 10));
        s
    }
}

/// The decimal representation of a signed integer.
pub open spec fn int_text(n: int) -> Seq<char> {
    if n < 0 {
        seq!['-'] + dec_digits((-n) as nat)
    } else {
        dec_digits(n as nat)
    }
}

/// Renders a signed 16-bit integer in decimal.
pub fn i16_to_string(n: i16) -> (r: String)
    ensures
        r@ == int_text(n as int),
{
    if n < 0 {
        let mag: u64 = (-(n as i64)) as u64;
        let mut s = String::new();
        push_char(&mut s, '-');
        s.append(u64_to_string(mag).as_str());
        proof {
            assert(s@ =~= int_text(n as int));
        }
        s
    } else {
        u64_to_string(n as u64)
    }
}

/// The characters a derived unique id retains: lowercase ASCII letters,
/// digits and the underscore.
pub open spec fn id_char_ok(c: char) -> bool {
    (97 <= c as u32 && c as u32 <= 122) || (48 <= c as u32 && c as u32 <= 57) || c as u32 == 95
}

/// What identifier normalization makes of one character: a space becomes an
/// underscore, and anything the retained set does not hold is dropped.
pub open spec fn norm_char(c: char) -> Seq<char> {
    let mapped: char = if c as u32 == 32 {
        '_'
    } else {
        c
    };
    if id_char_ok(mapped) {
        seq![mapped]
    } else {
        Seq::<char>::empty()
    }
}

/// Identifier normalization over a whole string: spaces to underscores, then
/// filtered to the retained character set.
pub open spec fn normalize_id_seq(s: Seq<char>) -> Seq<char>
    decreases s.len(),
{
    if s.len() == 0 {
        Seq::empty()
    } else {
        normalize_id_seq(s.drop_last()) + norm_char(s.last())
    }
}

/// Every character of a normalized identifier is a lowercase ASCII letter, a
/// digit or an underscore; in particular no space survives.
pub proof fn lemma_normalize_id_chars(s: Seq<char>)
    ensures
        forall|i: int|
            0 <= i < normalize_id_seq(s).len() ==> id_char_ok(#[trigger] normalize_id_seq(s)[i]),
    decreases s.len(),
{
    if s.len() > 0 {
        lemma_normalize_id_chars(s.drop_last());
        let pre = normalize_id_seq(s.drop_last());
        let add = norm_char(s.last());
        assert forall|i: int|
            0 <= i < normalize_id_seq(s).len() implies id_char_ok(
            #[trigger] normalize_id_seq(s)[i],
        ) by {
            if i < pre.len() {
                assert(normalize_id_seq(s)[i] == pre[i]);
            } else {
                assert(normalize_id_seq(s)[i] == add[i - pre.len()]);
            }
        }
    }
}

/// Identifier normalization keeps a trailing run of ASCII lowercase letters
/// in place: they are retained characters and map to themselves.
pub proof fn lemma_normalize_id_keeps_lowercase_suffix(s: Seq<char>, t: Seq<char>)
    requires
        ends_with(s, t),
        ascii_lowercase_seq(t),
    ensures
        ends_with(normalize_id_seq(s), t),
    decreases t.len(),
{
    if t.len() == 0 {
        assert(normalize_id_seq(s).subrange(
            normalize_id_seq(s).len() as int,
            normalize_id_seq(s).len() as int,
        ) =~= t);
    } else {
        assert(s.subrange(s.len() - t.len(), s.len() as int)[t.len() - 1] == t[t.len() - 1]);
        assert(s.last() == t.last());
        assert(is_ascii_lowercase_char(s.last()));
        assert(norm_char(s.last()) == seq![s.last()]);
        let s1 = s.drop_last();
        let t1 = t.drop_last();
        assert(s1.subrange(s1.len() - t1.len(), s1.len() as int) =~= t1);
        assert(ascii_lowercase_seq(t1)) by {
            assert(forall|k: int| 0 <= k < t1.len() ==> t1[k] == t[k]);
        }
        lemma_normalize_id_keeps_lowercase_suffix(s1, t1);
        let nd = normalize_id_seq(s1);
        let n = normalize_id_seq(s);
        assert(n == nd + seq![s.last()]);
        assert forall|k: int| 0 <= k < t.len() implies n.subrange(n.len() - t.len(), n.len() as int)[k]
            == t[k] by {
            if k < t.len() - 1 {
                assert(n[n.len() - t.len() + k] == nd[nd.len() - t1.len() + k]);
                assert(nd.subrange(nd.len() - t1.len(), nd.len() as int)[k] == t1[k]);
                assert(t1[k] == t[k]);
            } else {
                assert(n[n.len() - 1] == s.last());
            }
        }
        assert(n.subrange(n.len() - t.len(), n.len() as int) =~= t);
    }
}

/// Normalizes a string into identifier form, as `normalize_id_seq` states.
pub fn normalize_id(s: &str) -> (r: String)
    ensures
        r@ == normalize_id_seq(s@),
{
    let n = s.unicode_len();
    let mut out = String::new();
    let mut i: usize = 0;
    while i < n
        invariant
            i <= n,
            n == s@.len(),
            out@ == normalize_id_seq(s@.subrange(0, i as int)),
        decreases n - i,
    {
        let c = s.get_char(i);
        let mapped: char = if c as u32 == 32 {
            '_'
        } else {
            c
        };
        let mu = mapped as u32;
        if (97 <= mu && mu <= 122) || (48 <= mu && mu <= 57) || mu == 95 {
            push_char(&mut out, mapped);
        }
        proof {
            let cur = s@.subrange(0, i + 1 as int);
            assert(cur.drop_last() =~= s@.subrange(0, i as int));
            assert(cur.last() == s@[i as int]);
            assert(out@ =~= normalize_id_seq(cur));
        }
        i = i + 1;
    }
    proof {
        assert(s@.subrange(0, n as int) =~= s@);
    }
    out
}

/// str::replace of "/state" by "/config": scanning left to right, each
/// leftmost, non-overlapping occurrence of "/state" is replaced.
pub open spec fn replace_state_seq(s: Seq<char>) -> Seq<char>
    decreases s.len(),
{
    if s.len() < 6 {
        s
    } else if s.subrange(0, 6) == "/state"@ {
        "/config"@ + replace_state_seq(s.subrange(6, s.len() as int))
    } else {
        seq![s[0]] + replace_state_seq(s.subrange(1, s.len() as int))
    }
}

fn starts_with_state(s: &str) -> (r: bool)
    requires
        s@.len() >= 6,
    ensures
        r == (s@.subrange(0, 6) == "/state"@),
{
    proof {
        reveal_strlit("/state");
    }
    let r = s.get_char(0) == '/' && s.get_char(1) == 's' && s.get_char(2) == 't' && s.get_char(3)
        == 'a' && s.get_char(4) == 't' && s.get_char(5) == 'e';
    proof {
        if r {
            assert(s@.subrange(0, 6) =~= "/state"@);
        } else {
            if s@.subrange(0, 6) == "/state"@ {
                assert(forall|k: int| 0 <= k < 6 ==> s@.subrange(0, 6)[k] == s@[k]);
                assert(s@[0] == '/' && s@[1] == 's' && s@[2] == 't' && s@[3] == 'a' && s@[4] == 't'
                    && s@[5] == 'e');
            }
        }
    }
    r
}

/// Replaces every occurrence of "/state" by "/config", as str::replace does.
pub fn replace_state_with_config(s: &str) -> (r: String)
    ensures
        r@ == replace_state_seq(s@),
    decreases s@.len(),
{
    let n = s.unicode_len();
    if n < 6 {
        String::from_str(s)
    } else if starts_with_state(s) {
        let rest = s.substring_char(6, n);
        let tail = replace_state_with_config(rest);
        let mut out = String::from_str("/config");
        out.append(tail.as_str());
        proof {
            assert(out@ =~= replace_state_seq(s@));
        }
        out
    } else {
        let rest = s.substring_char(1, n);
        let tail = replace_state_with_config(rest);
        let mut out = String::new();
        push_char(&mut out, s.get_char(0));
        out.append(tail.as_str());
        proof {
            assert(out@ =~= replace_state_seq(s@));
        }
        out
    }
}

/// "/state" starts at position `i` of `s`.
pub open spec fn has_state_at(s: Seq<char>, i: int) -> bool {
    0 <= i && i + 6 <= s.len() && s.subrange(i, i + 6) == "/state"@
}

/// Replacement touches nothing but the occurrences: where the string is one
/// prefix followed by a single trailing "/state", and "/state" starts nowhere
/// inside the prefix, the result is that prefix followed by "/config".
pub proof fn lemma_replace_single(p: Seq<char>, s: Seq<char>)
    requires
        s == p + "/state"@,
        forall|i: int| 0 <= i < p.len() ==> !#[trigger] has_state_at(s, i),
    ensures
        replace_state_seq(s) == p + "/config"@,
    decreases p.len(),
{
    reveal_strlit("/state");
    reveal_strlit("/config");
    if p.len() == 0 {
        assert(s =~= "/state"@);
        assert(s.subrange(0, 6) == "/state"@);
        assert(s.subrange(6, 6) =~= Seq::<char>::empty());
        assert(replace_state_seq(Seq::<char>::empty()) == Seq::<char>::empty());
        assert(replace_state_seq(s) =~= p + "/config"@);
    } else {
        let p1 = p.subrange(1, p.len() as int);
        let s1 = s.subrange(1, s.len() as int);
        assert(s1 =~= p1 + "/state"@);
        assert forall|i: int| 0 <= i < p1.len() implies !#[trigger] has_state_at(s1, i) by {
            assert(s1.subrange(i, i + 6) =~= s.subrange(i + 1, i + 1 + 6));
            assert(!has_state_at(s, i + 1));
        }
        lemma_replace_single(p1, s1);
        assert(!has_state_at(s, 0));
        assert(s.subrange(0, 6) != "/state"@);
        assert(replace_state_seq(s) == seq![s[0]] + replace_state_seq(s1));
        assert(replace_state_seq(s) =~= p + "/config"@);
    }
}

/// The sixteen hexadecimal digit characters, lowercase, by value.
pub open spec fn hex_char(d: nat) -> char {
    if d < 10 {
        digit_char(d)
    } else if d == 10 {
        'a'
    } else if d == 11 {
        'b'
    } else if d == 12 {
        'c'
    } else if d == 13 {
        'd'
    } else if d == 14 {
        'e'
    } else {
        'f'
    }
}

/// How one character appears inside a JSON string literal, exactly as
/// serde_json writes it: quote and backslash get a backslash escape, the five
/// short control escapes are used where they exist, any other control
/// character becomes a lowercase \u00XX escape, and everything else stands
/// unchanged.
pub open spec fn json_escape_char(c: char) -> Seq<char> {
    if c as u32 == 34 {
        seq!['\\', '"']
    } else if c as u32 == 92 {
        seq!['\\', '\\']
    } else if c as u32 == 8 {
        seq!['\\', 'b']
    } else if c as u32 == 9 {
        seq!['\\', 't']
    } else if c as u32 == 10 {
        seq!['\\', 'n']
    } else if c as u32 == 12 {
        seq!['\\', 'f']
    } else if c as u32 == 13 {
        seq!['\\', 'r']
    } else if (c as u32) < 32 {
        seq!['\\', 'u', '0', '0', hex_char((c as u32 / 16) as nat), hex_char((c as u32 % 16) as nat)]
    } else {
        seq![c]
    }
}

/// A whole string's JSON escaping.
pub open spec fn json_escape_seq(s: Seq<char>) -> Seq<char>
    decreases s.len(),
{
    if s.len() == 0 {
        Seq::empty()
    } else {
        json_escape_seq(s.drop_last()) + json_escape_char(s.last())
    }
}

fn hex_to_char(d: u32) -> (c: char)
    requires
        d < 16,
    ensures
        c == hex_char(d as nat),
{
    if d == 0 {
        '0'
    } else if d == 1 {
        '1'
    } else if d == 2 {
        '2'
    } else if d == 3 {
        '3'
    } else if d == 4 {
        '4'
    } else if d == 5 {
        '5'
    } else if d == 6 {
        '6'
    } else if d == 7 {
        '7'
    } else if d == 8 {
        '8'
    } else if d == 9 {
        '9'
    } else if d == 10 {
        'a'
    } else if d == 11 {
        'b'
    } else if d == 12 {
        'c'
    } else if d == 13 {
        'd'
    } else if d == 14 {
        'e'
    } else {
        'f'
    }
}

/// Appends the JSON escaping of `s` onto `out`.
pub fn append_json_escaped(out: &mut String, s: &str)
    ensures
        final(out)@ == old(out)@ + json_escape_seq(s@),
{
    let n = s.unicode_len();
    let mut i: usize = 0;
    while i < n
        invariant
            i <= n,
            n == s@.len(),
            out@ == old(out)@ + json_escape_seq(s@.subrange(0, i as int)),
        decreases n - i,
    {
        let c = s.get_char(i);
        let u = c as u32;
        if u == 34 {
            out.append("\\\"");
        } else if u == 92 {
            out.append("\\\\");
        } else if u == 8 {
            out.append("\\b");
        } else if u == 9 {
            out.append("\\t");
        } else if u == 10 {
            out.append("\\n");
        } else if u == 12 {
            out.append("\\f");
        } else if u == 13 {
            out.append("\\r");
        } else if u < 32 {
            out.append("\\u00");
            push_char(out, hex_to_char(u / 16));
            push_char(out, hex_to_char(u % 16));
        } else {
            push_char(out, c);
        }
        proof {
            reveal_strlit("\\\"");
            reveal_strlit("\\\\");
            reveal_strlit("\\b");
            reveal_strlit("\\t");
            reveal_strlit("\\n");
            reveal_strlit("\\f");
            reveal_strlit("\\r");
            reveal_strlit("\\u00");
            let cur = s@.subrange(0, i + 1 as int);
            assert(cur.drop_last() =~= s@.subrange(0, i as int));
            assert(cur.last() == s@[i as int]);
            assert(out@ =~= old(out)@ + json_escape_seq(cur));
        }
        i = i + 1;
    }
    proof {
        assert(s@.subrange(0, n as int) =~= s@);
    }
}

/// The white-space characters str::trim strips: the Unicode White_Space set.
pub open spec fn is_ws_char(c: char) -> bool {
    let u = c as u32;
    (9 <= u && u <= 13) || u == 32 || u == 0x85 || u == 0xA0 || u == 0x1680 || (0x2000 <= u && u
        <= 0x200A) || u == 0x2028 || u == 0x2029 || u == 0x202F || u == 0x205F || u == 0x3000
}

fn is_ws_char_exec(c: char) -> (r: bool)
    ensures
        r == is_ws_char(c),
{
    let u = c as u32;
    (9 <= u && u <= 13) || u == 32 || u == 0x85 || u == 0xA0 || u == 0x1680 || (0x2000 <= u && u
        <= 0x200A) || u == 0x2028 || u == 0x2029 || u == 0x202F || u == 0x205F || u == 0x3000
}

/// What str::trim returns: the string without leading and trailing white
/// space.
pub open spec fn trim_seq(s: Seq<char>) -> Seq<char>
    decreases s.len(),
{
    if s.len() > 0 && is_ws_char(s.first()) {
        trim_seq(s.drop_first())
    } else if s.len() > 0 && is_ws_char(s.last()) {
        trim_seq(s.drop_last())
    } else {
        s
    }
}

/// A decimal digit character.
pub open spec fn is_digit_char(c: char) -> bool {
    48 <= c as u32 && c as u32 <= 57
}

/// A digit character's numeric value (zero for anything else).
pub open spec fn digit_val(c: char) -> int {
    if is_digit_char(c) {
        c as u32 - 48
    } else {
        0
    }
}

/// The numeric value of a digit string, most significant digit first.
pub open spec fn dec_value(s: Seq<char>) -> int
    decreases s.len(),
{
    if s.len() == 0 {
        0
    } else {
        dec_value(s.drop_last()) * 10 + digit_val(s.last())
    }
}

/// The parse of a digit run: one or more decimal digits whose value fits in
/// 64 bits.
pub open spec fn parse_u64_seq_of_body(body: Seq<char>) -> Option<int> {
    if body.len() >= 1 && (forall|i: int| 0 <= i < body.len() ==> is_digit_char(#[trigger] body[i]))
        && dec_value(body) <= 0xFFFF_FFFF_FFFF_FFFFu64 as int {
        Some(dec_value(body))
    } else {
        None
    }
}

/// What str::parse::<u64> accepts: an optional leading plus sign, then one or
/// more decimal digits whose value fits in 64 bits.
pub open spec fn parse_u64_seq(s: Seq<char>) -> Option<int> {
    if s.len() >= 1 && s[0] == '+' {
        parse_u64_seq_of_body(s.subrange(1, s.len() as int))
    } else {
        parse_u64_seq_of_body(s)
    }
}

proof fn lemma_dec_value_nonneg(s: Seq<char>)
    ensures
        dec_value(s) >= 0,
    decreases s.len(),
{
    if s.len() > 0 {
        lemma_dec_value_nonneg(s.drop_last());
    }
}

proof fn lemma_dec_value_mono(s: Seq<char>, i: int)
    requires
        0 <= i <= s.len(),
    ensures
        dec_value(s.subrange(0, i)) <= dec_value(s),
    decreases s.len() - i,
{
    if i < s.len() {
        assert(s.subrange(0, i + 1).drop_last() =~= s.subrange(0, i));
        assert(s.subrange(0, i + 1).last() == s[i]);
        lemma_dec_value_nonneg(s.subrange(0, i));
        lemma_dec_value_mono(s, i + 1);
    } else {
        assert(s.subrange(0, i) =~= s);
    }
}

/// Trims a string and parses it as a decimal u64, exactly as
/// str::trim followed by str::parse::<u64> would.
pub fn parse_u64_trimmed(s: &str) -> (r: Option<u64>)
    ensures
        ((r is Some) <==> (parse_u64_seq(trim_seq(s@)) is Some)),
        (r matches Some(v) ==> parse_u64_seq(trim_seq(s@)) == Some(v as int)),
{
    let n = s.unicode_len();
    proof {
        assert(s@.subrange(0, n as int) =~= s@);
    }
    let mut start: usize = 0;
    while start < n && is_ws_char_exec(s.get_char(start))
        invariant
            start <= n,
            n == s@.len(),
            trim_seq(s@) == trim_seq(s@.subrange(start as int, n as int)),
        decreases n - start,
    {
        proof {
            let sub = s@.subrange(start as int, n as int);
            assert(sub.first() == s@[start as int]);
            assert(sub.drop_first() =~= s@.subrange(start as int + 1, n as int));
        }
        start = start + 1;
    }
    let mut end: usize = n;
    while end > start && is_ws_char_exec(s.get_char(end - 1))
        invariant
            start <= end <= n,
            n == s@.len(),
            trim_seq(s@) == trim_seq(s@.subrange(start as int, end as int)),
            start == n || !is_ws_char(s@[start as int]),
        decreases end,
    {
        proof {
            let sub = s@.subrange(start as int, end as int);
            assert(sub.first() == s@[start as int]);
            assert(sub.last() == s@[end - 1]);
            assert(sub.drop_last() =~= s@.subrange(start as int, end as int - 1));
        }
        end = end - 1;
    }
    let ghost trimmed = s@.subrange(start as int, end as int);
    proof {
        if trimmed.len() > 0 {
            assert(trimmed.first() == s@[start as int]);
            assert(trimmed.last() == s@[end - 1]);
        }
        assert(trim_seq(s@) == trimmed);
    }
    let mut idx = start;
    if idx < end && s.get_char(idx) == '+' {
        idx = idx + 1;
    }
    let ghost body = s@.subrange(idx as int, end as int);
    proof {
        if trimmed.len() >= 1 {
            assert(trimmed[0] == s@[start as int]);
        }
        if trimmed.len() >= 1 && trimmed[0] == '+' {
            assert(body =~= trimmed.subrange(1, trimmed.len() as int));
        } else {
            assert(body =~= trimmed);
        }
        assert(parse_u64_seq(trim_seq(s@)) == parse_u64_seq_of_body(body));
    }
    if idx == end {
        return None;
    }
    let mut acc: u64 = 0;
    let mut j = idx;
    while j < end
        invariant
            idx <= j <= end,
            end <= n,
            n == s@.len(),
            body == s@.subrange(idx as int, end as int),
            acc == dec_value(s@.subrange(idx as int, j as int)),
            forall|k: int| 0 <= k < j - idx ==> is_digit_char(#[trigger] body[k]),
            parse_u64_seq(trim_seq(s@)) == parse_u64_seq_of_body(body),
        decreases end - j,
    {
        let c = s.get_char(j);
        let u = c as u32;
        if !(48 <= u && u <= 57) {
            proof {
                assert(!is_digit_char(body[j - idx]));
            }
            return None;
        }
        let d = (u - 48) as u64;
        proof {
            assert(s@.subrange(idx as int, j + 1 as int).drop_last() =~= s@.subrange(
                idx as int,
                j as int,
            ));
            assert(s@.subrange(idx as int, j + 1 as int).last() == s@[j as int]);
            lemma_dec_value_nonneg(s@.subrange(idx as int, j as int));
        }
        if acc > 1844674407370955161u64 || (acc == 1844674407370955161u64 && d > 5) {
            proof {
                assert(dec_value(s@.subrange(idx as int, j + 1 as int)) > 0xFFFF_FFFF_FFFF_FFFFu64
                    as int);
                assert(body.subrange(0, j + 1 - idx as int) =~= s@.subrange(
                    idx as int,
                    j + 1 as int,
                ));
                lemma_dec_value_mono(body, j + 1 - idx as int);
            }
            return None;
        }
        acc = acc * 10 + d;
        j = j + 1;
    }
    proof {
        assert(body =~= s@.subrange(idx as int, j as int));
        assert(forall|k: int| 0 <= k < body.len() ==> is_digit_char(#[trigger] body[k]));
    }
    Some(acc)
}

} // verus!
