//! Model files: where they live, how their sizes read, and the checks of a download.
use vstd::prelude::*;

use crate::agent::prompt::copy_str;
use crate::agent::tool::{join_path, resolve_path, strings};
use crate::text::{
    chars_of, dec_seq, join_with, last_index_of, last_index_of_exec, lemma_last_index_of, push_decimal,
    push_decimal_wide, push_str, slice, str_eq, string_of,
};

verus! {

/// `2^n`.
pub open spec fn p2(n: nat) -> nat
    decreases n,
{
    if n == 0 {
        1
    } else {
        2 * p2((n - 1) as nat)
    }
}

/// The number of binary digits of `b`.
pub open spec fn bit_len(b: nat) -> nat
    decreases b,
{
    if b == 0 {
        0
    } else {
        1 + bit_len(b / 2)
    }
}

/// `a / d` rounded to the nearest integer, a tie to the even one.
pub open spec fn round_half_even(a: nat, d: nat) -> nat {
    let q = a / d;
    let r = a % d;
    if 2 * r > d || (2 * r == d && q % 2 == 1) {
        q + 1
    } else {
        q
    }
}

/// The integer that `b as f64` holds: `b` itself up to 53 significant bits, otherwise `b`
/// rounded to 53 significant bits, a tie to an even significand.
pub open spec fn nearest_double(b: nat) -> nat {
    if bit_len(b) <= 53 {
        b
    } else {
        let s = (bit_len(b) - 53) as nat;
        round_half_even(b, p2(s)) * p2(s)
    }
}

pub open spec fn kib() -> nat {
    1024
}

pub open spec fn mib() -> nat {
    1024 * 1024
}

pub open spec fn gib() -> nat {
    1024 * 1024 * 1024
}

/// A byte count as people read it: gigabytes with one decimal, whole megabytes or kilobytes, or
/// bytes (the decimals rounded as `{:.1}` and `{:.0}` round the quotient of `bytes as f64`).
pub open spec fn format_size_spec(bytes: nat) -> Seq<char> {
    let r = nearest_double(bytes);
    if bytes >= gib() {
        let t = round_half_even(r * 10, gib());
        dec_seq(t / 10) + "."@ + dec_seq(t % 10) + " GB"@
    } else if bytes >= mib() {
        dec_seq(round_half_even(r, mib())) + " MB"@
    } else if bytes >= kib() {
        dec_seq(round_half_even(r, kib())) + " KB"@
    } else {
        dec_seq(bytes) + " B"@
    }
}

fn bit_len_exec(b: u64) -> (r: u64)
    ensures
        r == bit_len(b as nat),
        r <= 64,
{
    let mut x: u64 = b;
    let mut n: u64 = 0;
    assert(p2(0) == 1);
    while x > 0
        invariant
            bit_len(b as nat) == n + bit_len(x as nat),
            n <= 64,
            x as nat <= u64::MAX as nat / p2(n as nat),
        decreases x,
    {
        assert(bit_len(x as nat) == 1 + bit_len((x / 2) as nat));
        proof {
            lemma_p2_pos(n as nat);
            assert(p2((n + 1) as nat) == 2 * p2(n as nat));
            assert(x as nat / 2 <= u64::MAX as nat / p2((n + 1) as nat)) by (nonlinear_arith)
                requires
                    x as nat <= u64::MAX as nat / p2(n as nat),
                    p2((n + 1) as nat) == 2 * p2(n as nat),
                    p2(n as nat) >= 1,
            {
            }
            lemma_p2_pos(n as nat);
            lemma_p2_pos((n + 1) as nat);
            if n == 64 {
                lemma_p2_64();
                assert(x as nat <= u64::MAX as nat / p2(64));
                assert(x == 0);
            }
        }
        x = x / 2;
        n = n + 1;
    }
    n
}

proof fn lemma_p2_pos(n: nat)
    ensures
        p2(n) >= 1,
    decreases n,
{
    if n > 0 {
        lemma_p2_pos((n - 1) as nat);
    }
}

proof fn lemma_p2_add(a: nat, b: nat)
    ensures
        p2(a + b) == p2(a) * p2(b),
    decreases a,
{
    if a > 0 {
        lemma_p2_add((a - 1) as nat, b);
        assert(p2(a) == 2 * p2((a - 1) as nat));
        assert(p2(a + b) == 2 * p2((a - 1 + b) as nat));
        assert(2 * (p2((a - 1) as nat) * p2(b)) == (2 * p2((a - 1) as nat)) * p2(b)) by (nonlinear_arith);
    } else {
        assert(p2(0) == 1);
        assert(a + b == b);
    }
}

proof fn lemma_p2_64()
    ensures
        p2(64) == 0x1_0000_0000_0000_0000,
{
    reveal_with_fuel(p2, 65);
}

fn p2_exec(n: u64) -> (r: u128)
    requires
        n <= 64,
    ensures
        r == p2(n as nat),
{
    let mut r: u128 = 1;
    let mut k: u64 = 0;
    while k < n
        invariant
            k <= n <= 64,
            r == p2(k as nat),
            r <= 0x1_0000_0000_0000_0000,
        decreases n - k,
    {
        proof {
            lemma_p2_mono(k as nat, 64);
            lemma_p2_64();
        }
        r = r * 2;
        k = k + 1;
        proof {
            lemma_p2_mono(k as nat, 64);
        }
    }
    r
}

proof fn lemma_p2_mono(a: nat, b: nat)
    requires
        a <= b,
    ensures
        p2(a) <= p2(b),
    decreases b,
{
    if a < b {
        lemma_p2_mono(a, (b - 1) as nat);
    }
}

fn round_half_even_exec(a: u128, d: u128) -> (r: u128)
    requires
        d > 0,
        d <= 0x4000_0000,
        a < 0x1_0000_0000_0000_0000_0000,
    ensures
        r == round_half_even(a as nat, d as nat),
{
    let q = a / d;
    let rem = a % d;
    if 2 * rem > d || (2 * rem == d && q % 2 == 1) {
        q + 1
    } else {
        q
    }
}

fn nearest_double_exec(b: u64) -> (r: u128)
    ensures
        r == nearest_double(b as nat),
        r <= 0x1_0000_0000_0000_0000,
{
    let len = bit_len_exec(b);
    if len <= 53 {
        b as u128
    } else {
        let s = len - 53;
        let d = p2_exec(s);
        proof {
            lemma_p2_pos(s as nat);
            lemma_p2_mono(s as nat, 11);
            reveal_with_fuel(p2, 12);
        }
        let q = round_half_even_exec(b as u128, d);
        proof {
            lemma_nearest_bound(b as nat, s as nat);
        }
        q * d
    }
}

proof fn lemma_nearest_bound(b: nat, s: nat)
    requires
        b < 0x1_0000_0000_0000_0000,
        s <= 11,
    ensures
        round_half_even(b, p2(s)) * p2(s) <= 0x1_0000_0000_0000_0000,
{
    lemma_p2_pos(s);
    lemma_p2_mono(s, 11);
    reveal_with_fuel(p2, 12);
    let d = p2(s);
    let q = b / d;
    assert(q * d <= b) by (nonlinear_arith)
        requires
            d >= 1,
            q == b / d,
    {
    }
    assert(b < (q + 1) * d) by (nonlinear_arith)
        requires
            d >= 1,
            q == b / d,
    {
    }
    let r = round_half_even(b, d);
    assert(r <= q + 1);
    assert(r * d <= (q + 1) * d) by (nonlinear_arith)
        requires
            r <= q + 1,
            d >= 1,
    {
    }
    assert(0x1_0000_0000_0000_0000nat % d == 0) by {
        lemma_p2_add(s, (64 - s) as nat);
        lemma_p2_64();
        lemma_p2_pos((64 - s) as nat);
        vstd::arithmetic::div_mod::lemma_mod_multiples_basic(p2((64 - s) as nat) as int, d as int);
        vstd::arithmetic::mul::lemma_mul_is_commutative(p2((64 - s) as nat) as int, d as int);
    }
    assert((q + 1) * d <= 0x1_0000_0000_0000_0000) by (nonlinear_arith)
        requires
            b < (q + 1) * d,
            q * d <= b,
            b < 0x1_0000_0000_0000_0000,
            0x1_0000_0000_0000_0000nat % d == 0,
            d >= 1,
    {
    }
}

/// Format a byte count as a human-readable size.
pub fn format_size(bytes: u64) -> (r: String)
    ensures
        r@ == format_size_spec(bytes as nat),
{
    let kb: u64 = 1024;
    let mb: u64 = 1024 * 1024;
    let gb: u64 = 1024 * 1024 * 1024;
    let mut out = String::new();
    if bytes >= gb {
        let v = nearest_double_exec(bytes);
        let t = round_half_even_exec(v * 10, gb as u128);
        push_decimal_wide(&mut out, t / 10);
        push_str(&mut out, ".");
        push_decimal_wide(&mut out, t % 10);
        push_str(&mut out, " GB");
    } else if bytes >= mb {
        let v = nearest_double_exec(bytes);
        push_decimal_wide(&mut out, round_half_even_exec(v, mb as u128));
        push_str(&mut out, " MB");
    } else if bytes >= kb {
        let v = nearest_double_exec(bytes);
        push_decimal_wide(&mut out, round_half_even_exec(v, kb as u128));
        push_str(&mut out, " KB");
    } else {
        push_decimal(&mut out, bytes);
        push_str(&mut out, " B");
    }
    out
}


// ---------------------------------------------------------------------------
// Where models live
// ---------------------------------------------------------------------------

/// The models directory: `models` under `COTREX_HOME` when set, otherwise `.cotrex/models` under
/// `HOME` or `USERPROFILE`; an error when there is no home directory.
pub open spec fn models_dir_spec(
    cotrex_home: Option<Seq<char>>,
    home: Option<Seq<char>>,
    userprofile: Option<Seq<char>>,
) -> Result<Seq<char>, Seq<char>> {
    match cotrex_home {
        Some(h) => Ok(join_path(h, "models"@)),
        None => match (match home {
            Some(h) => Some(h),
            None => userprofile,
        }) {
            Some(h) => Ok(join_path(join_path(h, ".cotrex"@), "models"@)),
            None => Err("cannot determine home directory"@),
        },
    }
}

/// Resolve the models directory from the environment's values.
pub fn models_dir(cotrex_home: Option<&str>, home: Option<&str>, userprofile: Option<&str>) -> (r:
    Result<String, String>)
    ensures
        match r {
            Ok(d) => models_dir_spec(
                crate::agent::qualify::opt_str(cotrex_home),
                crate::agent::qualify::opt_str(home),
                crate::agent::qualify::opt_str(userprofile),
            ) == Ok::<Seq<char>, Seq<char>>(d@),
            Err(e) => models_dir_spec(
                crate::agent::qualify::opt_str(cotrex_home),
                crate::agent::qualify::opt_str(home),
                crate::agent::qualify::opt_str(userprofile),
            ) == Err::<Seq<char>, Seq<char>>(e@),
        },
{
    match cotrex_home {
        Some(h) => Ok(resolve_path(h, "models")),
        None => {
            let base = match home {
                Some(h) => Some(h),
                None => userprofile,
            };
            match base {
                Some(h) => {
                    let c = resolve_path(h, ".cotrex");
                    Ok(resolve_path(c.as_str(), "models"))
                },
                None => Err(copy_str("cannot determine home directory")),
            }
        },
    }
}

/// The path of a model file in the models directory.
pub fn model_path(dir: &str, filename: &str) -> (r: String)
    ensures
        r@ == join_path(dir@, filename@),
{
    resolve_path(dir, filename)
}

/// The model name of a file in the models directory: the stem of a `.gguf` file (a name whose
/// only dot leads it has no extension).
pub open spec fn gguf_stem(name: Seq<char>) -> Option<Seq<char>> {
    match last_index_of(name, '.') {
        Some(i) => if i > 0 && name.subrange(i + 1, name.len() as int) == "gguf"@ {
            Some(name.subrange(0, i))
        } else {
            None
        },
        None => None,
    }
}

pub open spec fn stems(names: Seq<Seq<char>>) -> Seq<Seq<char>>
    decreases names.len(),
{
    if names.len() == 0 {
        seq![]
    } else {
        match gguf_stem(names.last()) {
            Some(s) => stems(names.drop_last()).push(s),
            None => stems(names.drop_last()),
        }
    }
}

fn gguf_stem_exec(name: &str) -> (r: Option<String>)
    ensures
        crate::agent::prompt::opt_view(r) == gguf_stem(name@),
{
    let c = chars_of(name);
    proof {
        lemma_last_index_of(c@, '.');
    }
    match last_index_of_exec(&c, '.') {
        Some(i) => {
            if i > 0 && str_eq(string_of(&slice(&c, i + 1, c.len())).as_str(), "gguf") {
                Some(string_of(&slice(&c, 0, i)))
            } else {
                None
            }
        },
        None => None,
    }
}

/// The installed models: the sorted stems of the `.gguf` files among the directory's names.
pub fn installed_names(names: &Vec<String>) -> (r: Vec<String>)
    ensures
        strings(r@) == stems(strings(names@)).sort_by(crate::order::lex_order()),
{
    let ghost ns = strings(names@);
    let mut found: Vec<String> = Vec::new();
    let mut i: usize = 0;
    assert(ns.take(0) =~= seq![]);
    assert(strings(found@) =~= seq![]);
    while i < names.len()
        invariant
            i <= names.len(),
            ns == strings(names@),
            strings(found@) == stems(ns.take(i as int)),
        decreases names.len() - i,
    {
        assert(ns.take(i + 1).drop_last() =~= ns.take(i as int));
        assert(ns.take(i + 1).last() == names@[i as int]@);
        match gguf_stem_exec(names[i].as_str()) {
            Some(st) => {
                let ghost b = strings(found@);
                let ghost sv = st@;
                found.push(st);
                assert(strings(found@) =~= b.push(sv));
            },
            None => {},
        }
        i = i + 1;
    }
    assert(ns.take(names.len() as int) =~= ns);
    crate::order::sort_strings(found)
}

/// A model the registry offers.
pub struct RegistryModel {
    pub id: String,
    pub filename: String,
    pub url: String,
    pub size: u64,
}

/// Resolve a model id against the registry's models: `latest` is the first (recommended) one;
/// another id must be a model's id.
pub fn resolve_model(id: &str, models: &Vec<RegistryModel>) -> (r: Result<(String, String, u64), String>)
    ensures
        id@ == "latest"@ ==> match r {
            Ok((f, u, s)) => models@.len() > 0 && f@ == models@[0].filename@ && u@
                == models@[0].url@ && s == models@[0].size,
            Err(e) => models@.len() == 0 && e@ == "no models in registry"@,
        },
        id@ != "latest"@ ==> match r {
            Ok((f, u, s)) => exists|i: int|
                0 <= i < models@.len() && models@[i].id@ == id@ && (forall|k: int| 0 <= k < i ==> models@[k].id@ != id@)
                    && f@ == models@[i].filename@ && u@ == models@[i].url@ && s == models@[i].size,
            Err(e) => (forall|k: int| 0 <= k < models@.len() ==> models@[k].id@ != id@) && e@
                == "unknown model: "@ + id@ + ". Run: cotrex model list"@,
        },
{
    if str_eq(id, "latest") {
        if models.len() == 0 {
            return Err(copy_str("no models in registry"));
        }
        let m = &models[0];
        return Ok((copy_str(m.filename.as_str()), copy_str(m.url.as_str()), m.size));
    }
    let mut i: usize = 0;
    while i < models.len()
        invariant
            i <= models.len(),
            id@ != "latest"@,
            forall|k: int| 0 <= k < i ==> models@[k].id@ != id@,
        decreases models.len() - i,
    {
        if str_eq(models[i].id.as_str(), id) {
            let m = &models[i];
            return Ok((copy_str(m.filename.as_str()), copy_str(m.url.as_str()), m.size));
        }
        i = i + 1;
    }
    let mut m = copy_str("unknown model: ");
    push_str(&mut m, id);
    push_str(&mut m, ". Run: cotrex model list");
    Err(m)
}

// ---------------------------------------------------------------------------
// Checks of a download
// ---------------------------------------------------------------------------

/// Whether a model file of `actual` bytes has the size `expected` asks for (any size when none
/// is expected).
pub open spec fn size_fits(expected: nat, actual: nat) -> bool {
    expected == 0 || actual == expected
}

/// A model file already on disk is kept when its size is the expected one, or no size is
/// expected.
pub fn already_installed(actual: u64, expected: u64) -> (r: bool)
    ensures
        r == size_fits(expected as nat, actual as nat),
{
    actual == expected || expected == 0
}

/// The error for an HTTP status other than 200.
pub fn http_status_error(status: u16) -> (r: Option<String>)
    ensures
        status == 200 ==> r is None,
        status != 200 ==> (r matches Some(e) && e@ == "HTTP "@ + dec_seq(status as nat)),
{
    if status == 200 {
        None
    } else {
        let mut m = copy_str("HTTP ");
        push_decimal(&mut m, status as u64);
        Some(m)
    }
}

/// What `str::parse::<u64>` accepts: an optional `+` and one or more decimal digits, whose value
/// fits in 64 bits.
pub open spec fn digits_value(s: Seq<char>) -> nat
    decreases s.len(),
{
    if s.len() == 0 {
        0
    } else {
        digits_value(s.drop_last()) * 10 + ((s.last() as nat) - ('0' as nat)) as nat
    }
}

pub open spec fn all_digits(s: Seq<char>) -> bool {
    forall|i: int| 0 <= i < s.len() ==> '0' <= #[trigger] s[i] && s[i] <= '9'
}

pub open spec fn parse_u64_spec(s: Seq<char>) -> Option<u64> {
    let d = if s.len() > 0 && s[0] == '+' { s.drop_first() } else { s };
    if d.len() > 0 && all_digits(d) && digits_value(d) <= u64::MAX {
        Some(digits_value(d) as u64)
    } else {
        None
    }
}

/// Parse a decimal `u64`.
pub fn parse_u64(s: &str) -> (r: Option<u64>)
    ensures
        r == parse_u64_spec(s@),
{
    let c = chars_of(s);
    let start: usize = if c.len() > 0 && c[0] == '+' { 1 } else { 0 };
    let ghost d = if c@.len() > 0 && c@[0] == '+' { c@.drop_first() } else { c@ };
    assert(d =~= c@.subrange(start as int, c.len() as int));
    if start >= c.len() {
        return None;
    }
    let mut v: u64 = 0;
    let mut i: usize = start;
    assert(c@.subrange(start as int, start as int) =~= seq![]);
    while i < c.len()
        invariant
            start <= i <= c.len(),
            c@ == s@,
            d == (if c@.len() > 0 && c@[0] == '+' { c@.drop_first() } else { c@ }),
            d == c@.subrange(start as int, c.len() as int),
            v == digits_value(c@.subrange(start as int, i as int)),
            all_digits(c@.subrange(start as int, i as int)),
        decreases c.len() - i,
    {
        let ch = c[i];
        let ghost pre = c@.subrange(start as int, i as int);
        let ghost next = c@.subrange(start as int, i + 1);
        assert(next.drop_last() =~= pre);
        assert(next.last() == ch);
        if !('0' <= ch && ch <= '9') {
            assert(!all_digits(d)) by {
                assert(d[i - start] == ch);
            }
            return None;
        }
        let digit = (ch as u32 - '0' as u32) as u64;
        if v > (u64::MAX - digit) / 10 {
            proof {
                assert(next =~= d.take((i + 1 - start) as int));
                if all_digits(d) {
                    lemma_digits_grow(d, (i + 1 - start) as int);
                }
                assert(digits_value(next) == v * 10 + digit);
                assert(v * 10 + digit > u64::MAX) by (nonlinear_arith)
                    requires
                        v > (u64::MAX - digit) / 10,
                        digit <= 9,
                ;
            }
            assert(next =~= d.take((i + 1 - start) as int));
            return None;
        }
        v = v * 10 + digit;
        i = i + 1;
    }
    assert(c@.subrange(start as int, c.len() as int) =~= d);
    Some(v)
}

proof fn lemma_digits_grow(d: Seq<char>, k: int)
    requires
        0 <= k <= d.len(),
        all_digits(d),
    ensures
        digits_value(d) >= digits_value(d.take(k)),
    decreases d.len(),
{
    if k < d.len() {
        assert(d.drop_last().take(k) =~= d.take(k));
        assert(all_digits(d.drop_last()));
        lemma_digits_grow(d.drop_last(), k);
    } else {
        assert(d.take(k) =~= d);
    }
}

/// The size to show progress against: the expected size when known, else the server's
/// `content-length` when it parses, else 0.
pub fn download_total(expected: u64, content_length: Option<&str>) -> (r: u64)
    ensures
        expected > 0 ==> r == expected,
        expected == 0 ==> r == match content_length {
            Some(t) => match parse_u64_spec(t@) {
                Some(n) => n,
                None => 0,
            },
            None => 0,
        },
{
    if expected > 0 {
        expected
    } else {
        match content_length {
            Some(t) => match parse_u64(t) {
                Some(n) => n,
                None => 0,
            },
            None => 0,
        }
    }
}

/// `{:?}` of a byte array: its values in brackets, separated by `, `.
pub open spec fn bytes_debug(b: Seq<u8>) -> Seq<char> {
    "["@ + join_with(Seq::new(b.len(), |i: int| dec_seq(b[i] as nat)), ", "@) + "]"@
}

/// A downloaded model must start with the GGUF magic.
pub fn check_magic(magic: [u8; 4]) -> (r: Result<(), String>)
    ensures
        magic@ == seq![71u8, 71u8, 85u8, 70u8] ==> r is Ok,
        magic@ != seq![71u8, 71u8, 85u8, 70u8] ==> (r matches Err(e) && e@
            == "not a valid GGUF file: expected GGUF, got "@ + bytes_debug(magic@)),
{
    if magic[0] == 71 && magic[1] == 71 && magic[2] == 85 && magic[3] == 70 {
        assert(magic@ =~= seq![71u8, 71u8, 85u8, 70u8]);
        return Ok(());
    }
    let mut parts: Vec<Vec<char>> = Vec::new();
    let mut i: usize = 0;
    while i < 4
        invariant
            i <= 4,
            crate::text::seqs(parts@) =~= Seq::new(i as nat, |k: int| dec_seq(magic@[k] as nat)),
        decreases 4 - i,
    {
        let mut t = String::new();
        push_decimal(&mut t, magic[i] as u64);
        let ghost b = crate::text::seqs(parts@);
        parts.push(chars_of(t.as_str()));
        assert(crate::text::seqs(parts@) =~= b.push(dec_seq(magic@[i as int] as nat)));
        i = i + 1;
    }
    let mut m = copy_str("not a valid GGUF file: expected GGUF, got ");
    push_str(&mut m, "[");
    crate::text::push_chars(&mut m, &crate::text::join_chars(&parts, ", "));
    push_str(&mut m, "]");
    assert(Seq::new(4, |k: int| dec_seq(magic@[k] as nat)) =~= Seq::new(magic@.len(), |k: int| dec_seq(magic@[k] as nat)));
    Err(m)
}

/// A downloaded model must have the expected size, when one is expected.
pub fn check_size(expected: u64, actual: u64) -> (r: Result<(), String>)
    ensures
        size_fits(expected as nat, actual as nat) ==> r is Ok,
        !size_fits(expected as nat, actual as nat) ==> (r matches Err(e) && e@ == "size mismatch: expected "@
            + dec_seq(expected as nat) + " bytes, got "@ + dec_seq(actual as nat)),
{
    if expected > 0 && actual != expected {
        let mut m = copy_str("size mismatch: expected ");
        push_decimal(&mut m, expected);
        push_str(&mut m, " bytes, got ");
        push_decimal(&mut m, actual);
        Err(m)
    } else {
        Ok(())
    }
}

} // verus!
