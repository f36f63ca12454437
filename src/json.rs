//! Writing JSON text: scalars, arrays of strings and objects.
use vstd::prelude::*;

verus! {

/// The JSON string literal of `s`, quotes and escapes included.
pub uninterp spec fn json_str(s: Seq<char>) -> Seq<char>;

/// The character of a decimal digit.
pub open spec fn digit_char(d: nat) -> char {
    if d == 0 {
        '0'
    } else if d == 1 {
        '1'
    } else if d == 2 {
        '2'
    } else if d == 3 {
        '3'
    } else if d == 4 {
        '4'
    } else if d == 5 {
        '5'
    } else if d == 6 {
        '6'
    } else if d == 7 {
        '7'
    } else if d == 8 {
        '8'
    } else {
        '9'
    }
}

/// The decimal digits of `n`, without leading zeros.
pub open spec fn decimal_text(n: nat) -> Seq<char>
    decreases n,
{
    if n < 10 {
        seq![digit_char(n)]
    } else {
        decimal_text(n / 10).push(digit_char(n % 10))
    }
}

/// The JSON number text of a signed integer.
pub open spec fn signed_text(n: int) -> Seq<char> {
    if n < 0 {
        "-"@ + decimal_text((-n) as nat)
    } else {
        decimal_text(n as nat)
    }
}

/// The JSON number text of `n` thousandths: whole part, point, three digits.
pub open spec fn fixed3_text(n: nat) -> Seq<char> {
    decimal_text(n / 1000) + "."@ + seq![
        digit_char(n % 1000 / 100),
        digit_char(n % 100 / 10),
        digit_char(n % 10),
    ]
}

/// The JSON literal of a boolean.
pub open spec fn bool_text(b: bool) -> Seq<char> {
    if b {
        "true"@
    } else {
        "false"@
    }
}

/// The parts, in order, with a comma between each two.
pub open spec fn join_commas(parts: Seq<Seq<char>>) -> Seq<char>
    decreases parts.len(),
{
    if parts.len() == 0 {
        Seq::empty()
    } else if parts.len() == 1 {
        parts[0]
    } else {
        join_commas(parts.drop_last()) + ","@ + parts.last()
    }
}

/// A JSON array whose elements are the given texts.
pub open spec fn array_text(elems: Seq<Seq<char>>) -> Seq<char> {
    "["@ + join_commas(elems) + "]"@
}

/// A JSON array of strings.
pub open spec fn str_array_text(items: Seq<Seq<char>>) -> Seq<char> {
    array_text(items.map_values(|s: Seq<char>| json_str(s)))
}

/// One member of a JSON object: its quoted key, a colon, its value text.
pub open spec fn member_text(m: (Seq<char>, Seq<char>)) -> Seq<char> {
    json_str(m.0) + ":"@ + m.1
}

/// A JSON object whose members are the given pairs of key and value text.
pub open spec fn object_text(members: Seq<(Seq<char>, Seq<char>)>) -> Seq<char> {
    "{"@ + join_commas(members.map_values(|m: (Seq<char>, Seq<char>)| member_text(m))) + "}"@
}

/// Relies on serde_json::to_string on a `str`: the string as a JSON literal.
/// Writing a `str` into memory cannot fail, so the error arm is never taken.
#[verifier::external_body]
pub(crate) fn quote(s: &str) -> (r: String)
    ensures
        r@ == json_str(s@),
{
    serde_json::to_string(s).unwrap_or_default()
}

/// Relies on `u64`'s `to_string`: its decimal digits, without leading zeros.
#[verifier::external_body]
fn u64_to_decimal(n: u64) -> (r: String)
    ensures
        r@ == decimal_text(n as nat),
{
    n.to_string()
}

/// The decimal text of an unsigned integer.
pub fn decimal(n: u64) -> (r: String)
    ensures
        r@ == decimal_text(n as nat),
{
    u64_to_decimal(n)
}

/// The JSON number text of a signed integer.
pub fn signed(n: i64) -> (r: String)
    ensures
        r@ == signed_text(n as int),
{
    if n < 0 {
        let magnitude: u64 = if n == i64::MIN {
            9223372036854775808u64
        } else {
            (-n) as u64
        };
        let digits = u64_to_decimal(magnitude);
        let minus = String::from_str("-");
        minus.concat(digits.as_str())
    } else {
        u64_to_decimal(n as u64)
    }
}

/// The text of one decimal digit.
pub fn digit(d: u64) -> (r: &'static str)
    requires
        d < 10,
    ensures
        r@ == seq![digit_char(d as nat)],
{
    proof {
        reveal_strlit("0");
        reveal_strlit("1");
        reveal_strlit("2");
        reveal_strlit("3");
        reveal_strlit("4");
        reveal_strlit("5");
        reveal_strlit("6");
        reveal_strlit("7");
        reveal_strlit("8");
        reveal_strlit("9");
    }
    let r = if d == 0 {
        "0"
    } else if d == 1 {
        "1"
    } else if d == 2 {
        "2"
    } else if d == 3 {
        "3"
    } else if d == 4 {
        "4"
    } else if d == 5 {
        "5"
    } else if d == 6 {
        "6"
    } else if d == 7 {
        "7"
    } else if d == 8 {
        "8"
    } else {
        "9"
    };
    assert(r@ =~= seq![digit_char(d as nat)]);
    r
}

/// The JSON number text of `n` thousandths.
pub fn fixed3(n: u64) -> (r: String)
    ensures
        r@ == fixed3_text(n as nat),
{
    let whole = u64_to_decimal(n / 1000);
    let r = whole.concat(".").concat(digit(n % 1000 / 100)).concat(digit(n % 100 / 10)).concat(
        digit(n % 10),
    );
    assert(r@ =~= fixed3_text(n as nat));
    r
}

/// The JSON literal of a boolean.
pub fn boolean(b: bool) -> (r: &'static str)
    ensures
        r@ == bool_text(b),
{
    if b {
        "true"
    } else {
        "false"
    }
}

/// The parts, in order, with a comma between each two.
pub fn join(parts: &Vec<String>) -> (r: String)
    ensures
        r@ == join_commas(parts.deep_view()),
{
    let ghost ps = parts.deep_view();
    let mut out = String::new();
    let mut i: usize = 0;
    while i < parts.len()
        invariant
            i <= parts.len(),
            ps == parts.deep_view(),
            out@ == join_commas(ps.take(i as int)),
        decreases parts.len() - i,
    {
        proof {
            assert(ps.take(i as int + 1).drop_last() =~= ps.take(i as int));
            assert(ps.take(i as int + 1).last() == parts[i as int]@);
            if i == 0 {
                assert(join_commas(ps.take(0)) =~= Seq::empty());
            }
        }
        if i > 0 {
            out.append(",");
        }
        out.append(parts[i].as_str());
        proof {
            if i == 0 {
                assert(out@ =~= join_commas(ps.take(1)));
            }
        }
        i = i + 1;
    }
    assert(ps.take(parts.len() as int) =~= ps);
    out
}

/// A JSON array whose elements are the given texts.
pub fn array(elems: &Vec<String>) -> (r: String)
    ensures
        r@ == array_text(elems.deep_view()),
{
    let inner = join(elems);
    let open = String::from_str("[");
    open.concat(inner.as_str()).concat("]")
}

/// A JSON array of strings.
pub fn str_array(items: &Vec<String>) -> (r: String)
    ensures
        r@ == str_array_text(items.deep_view()),
{
    let ghost want = items.deep_view().map_values(|s: Seq<char>| json_str(s));
    let mut quoted: Vec<String> = Vec::new();
    let mut i: usize = 0;
    while i < items.len()
        invariant
            i <= items.len(),
            quoted.len() == i,
            want == items.deep_view().map_values(|s: Seq<char>| json_str(s)),
            forall|j: int| 0 <= j < i ==> (#[trigger] quoted@[j])@ == want[j],
        decreases items.len() - i,
    {
        let q = quote(items[i].as_str());
        quoted.push(q);
        i = i + 1;
    }
    assert(quoted.deep_view() =~= want);
    array(&quoted)
}

/// A JSON object whose members are the given pairs of key and value text.
pub fn object(members: &Vec<(String, String)>) -> (r: String)
    ensures
        r@ == object_text(members.deep_view()),
{
    let ghost want = members.deep_view().map_values(
        |m: (Seq<char>, Seq<char>)| member_text(m),
    );
    let mut texts: Vec<String> = Vec::new();
    let mut i: usize = 0;
    while i < members.len()
        invariant
            i <= members.len(),
            texts.len() == i,
            want == members.deep_view().map_values(|m: (Seq<char>, Seq<char>)| member_text(m)),
            forall|j: int| 0 <= j < i ==> (#[trigger] texts@[j])@ == want[j],
        decreases members.len() - i,
    {
        let key = quote(members[i].0.as_str());
        let t = key.concat(":").concat(members[i].1.as_str());
        texts.push(t);
        i = i + 1;
    }
    assert(texts.deep_view() =~= want);
    let inner = join(&texts);
    let open = String::from_str("{");
    open.concat(inner.as_str()).concat("}")
}

} // verus!
