//! Character-level text operations shared by the configuration, message and
//! update logic. Texts are handled as sequences of `char`; each operation is
//! specified by a spec function over `Seq<char>`.
use vstd::prelude::*;

verus! {

// ---------------------------------------------------------------------------
// Specifications
// ---------------------------------------------------------------------------

/// `s` begins with `p`.
pub open spec fn empieza_con(s: Seq<char>, p: Seq<char>) -> bool {
    p.len() <= s.len() && s.take(p.len() as int) == p
}

/// The first position at or after `i` where `c` occurs in `s`.
pub open spec fn buscar_desde(s: Seq<char>, c: char, i: int) -> Option<int>
    decreases s.len() - i,
{
    if i < 0 || i >= s.len() {
        None
    } else if s[i] == c {
        Some(i)
    } else {
        buscar_desde(s, c, i + 1)
    }
}

/// The first position where `c` occurs in `s`.
pub open spec fn buscar(s: Seq<char>, c: char) -> Option<int> {
    buscar_desde(s, c, 0)
}

/// `p` occurs in `s` starting at position `i`.
pub open spec fn coincide_en(s: Seq<char>, p: Seq<char>, i: int) -> bool {
    0 <= i && i + p.len() <= s.len() && s.subrange(i, i + p.len()) == p
}

/// The first position at or after `i` where the text `p` occurs in `s`.
pub open spec fn buscar_texto_desde(s: Seq<char>, p: Seq<char>, i: int) -> Option<int>
    decreases s.len() + 1 - i,
{
    if i < 0 || i + p.len() > s.len() {
        None
    } else if coincide_en(s, p, i) {
        Some(i)
    } else {
        buscar_texto_desde(s, p, i + 1)
    }
}

/// The first position where the text `p` occurs in `s`.
pub open spec fn buscar_texto(s: Seq<char>, p: Seq<char>) -> Option<int> {
    buscar_texto_desde(s, p, 0)
}

/// The Unicode `White_Space` property, which `char::is_whitespace` tests.
pub open spec fn es_espacio(c: char) -> bool {
    let u = c as u32;
    (0x09 <= u && u <= 0x0d) || u == 0x20 || u == 0x85 || u == 0xa0 || u == 0x1680 || (0x2000
        <= u && u <= 0x200a) || u == 0x2028 || u == 0x2029 || u == 0x202f || u == 0x205f || u
        == 0x3000
}

/// The first position at or after `i` that holds no white space.
pub open spec fn primer_visible_desde(s: Seq<char>, i: int) -> Option<int>
    decreases s.len() - i,
{
    if i < 0 || i >= s.len() {
        None
    } else if !es_espacio(s[i]) {
        Some(i)
    } else {
        primer_visible_desde(s, i + 1)
    }
}

/// The end (exclusive) of the last character before `j` that is no white space.
pub open spec fn fin_visible_hasta(s: Seq<char>, j: int) -> Option<int>
    decreases j,
{
    if j <= 0 || j > s.len() {
        None
    } else if !es_espacio(s[j - 1]) {
        Some(j)
    } else {
        fin_visible_hasta(s, j - 1)
    }
}

/// `s` without leading and trailing white space (`str::trim`).
pub open spec fn recortar(s: Seq<char>) -> Seq<char> {
    match (primer_visible_desde(s, 0), fin_visible_hasta(s, s.len() as int)) {
        (Some(a), Some(b)) => s.subrange(a, b),
        _ => Seq::empty(),
    }
}

/// The words of `s[i..]`, where `actual` is the word being read before `i`:
/// maximal runs of characters that are no white space (`str::split_whitespace`).
pub open spec fn palabras_desde(s: Seq<char>, i: int, actual: Seq<char>) -> Seq<Seq<char>>
    decreases s.len() - i,
{
    if i < 0 || i >= s.len() {
        if actual.len() > 0 {
            seq![actual]
        } else {
            Seq::empty()
        }
    } else if es_espacio(s[i]) {
        (if actual.len() > 0 {
            seq![actual]
        } else {
            Seq::empty()
        }) + palabras_desde(s, i + 1, Seq::empty())
    } else {
        palabras_desde(s, i + 1, actual.push(s[i]))
    }
}

/// The words of `s`.
pub open spec fn palabras(s: Seq<char>) -> Seq<Seq<char>> {
    palabras_desde(s, 0, Seq::empty())
}

/// The pieces of `s[i..]` between occurrences of `sep`, where `actual` is the
/// piece being read before `i`.
pub open spec fn trozos_desde(s: Seq<char>, sep: char, i: int, actual: Seq<char>) -> Seq<
    Seq<char>,
>
    decreases s.len() - i,
{
    if i < 0 || i >= s.len() {
        seq![actual]
    } else if s[i] == sep {
        seq![actual] + trozos_desde(s, sep, i + 1, Seq::empty())
    } else {
        trozos_desde(s, sep, i + 1, actual.push(s[i]))
    }
}

/// The text before the first `c` (all of `s` when `c` does not occur).
pub open spec fn antes_de(s: Seq<char>, c: char) -> Seq<char> {
    match buscar(s, c) {
        Some(i) => s.take(i),
        None => s,
    }
}

/// The text from the first `c` on (empty when `c` does not occur).
pub open spec fn desde_el(s: Seq<char>, c: char) -> Seq<char> {
    match buscar(s, c) {
        Some(i) => s.skip(i),
        None => Seq::empty(),
    }
}

/// The text after the first `c`, when `c` occurs.
pub open spec fn tras_el(s: Seq<char>, c: char) -> Option<Seq<char>> {
    match buscar(s, c) {
        Some(i) => Some(s.skip(i + 1)),
        None => None,
    }
}

/// The texts held by a sequence of character vectors.
pub open spec fn vistas(v: Seq<Vec<char>>) -> Seq<Seq<char>> {
    Seq::new(v.len(), |i: int| v[i]@)
}

/// The pieces of `s` between occurrences of `sep` (`str::split`).
pub open spec fn trozos(s: Seq<char>, sep: char) -> Seq<Seq<char>> {
    trozos_desde(s, sep, 0, Seq::empty())
}

/// The decimal digit characters.
pub open spec fn digitos() -> Seq<char> {
    seq!['0', '1', '2', '3', '4', '5', '6', '7', '8', '9']
}

/// The lower-case hexadecimal digit characters.
pub open spec fn digitos_hex() -> Seq<char> {
    seq!['0', '1', '2', '3', '4', '5', '6', '7', '8', '9', 'a', 'b', 'c', 'd', 'e', 'f']
}

/// The decimal notation of `n`, without leading zeros.
pub open spec fn decimal(n: nat) -> Seq<char>
    decreases n,
{
    if n < 10 {
        seq![digitos()[n as int]]
    } else {
        decimal(n / 10).push(digitos()[(n % 10) as int])
    }
}

/// `c` is an ASCII decimal digit.
pub open spec fn es_digito(c: char) -> bool {
    '0' <= c && c <= '9'
}

/// The number written by the decimal digits `s`.
pub open spec fn valor_decimal(s: Seq<char>) -> nat
    decreases s.len(),
{
    if s.len() == 0 {
        0
    } else {
        valor_decimal(s.drop_last()) * 10 + ((s.last() as u32) - ('0' as u32)) as nat
    }
}

/// `s` without a leading `+`.
pub open spec fn sin_signo(s: Seq<char>) -> Seq<char> {
    if s.len() > 0 && s[0] == '+' {
        s.drop_first()
    } else {
        s
    }
}

/// What `str::parse::<u16>` gives: an optional `+`, then one or more ASCII
/// digits whose value fits in 16 bits.
pub open spec fn leer_u16(s: Seq<char>) -> Option<u16> {
    let d = sin_signo(s);
    if d.len() > 0 && (forall|i: int| 0 <= i < d.len() ==> es_digito(#[trigger] d[i]))
        && valor_decimal(d) <= 0xffff {
        Some(valor_decimal(d) as u16)
    } else {
        None
    }
}

/// The lower-case hexadecimal notation of `b`, two digits per byte.
pub open spec fn hex(b: Seq<u8>) -> Seq<char>
    decreases b.len(),
{
    if b.len() == 0 {
        Seq::empty()
    } else {
        hex(b.drop_last()) + seq![
            digitos_hex()[(b.last() / 16) as int],
            digitos_hex()[(b.last() % 16) as int],
        ]
    }
}

/// `a` is not after `b` in lexicographic byte order.
pub open spec fn bytes_no_mayor(a: Seq<u8>, b: Seq<u8>) -> bool
    decreases a.len(),
{
    if a.len() == 0 {
        true
    } else if b.len() == 0 {
        false
    } else if a[0] != b[0] {
        a[0] < b[0]
    } else {
        bytes_no_mayor(a.drop_first(), b.drop_first())
    }
}

/// `s` is one or more ASCII digits whose value fits in 64 bits: that value.
pub open spec fn leer_u64(s: Seq<char>) -> Option<u64> {
    if s.len() > 0 && (forall|i: int| 0 <= i < s.len() ==> es_digito(#[trigger] s[i]))
        && valor_decimal(s) <= u64::MAX {
        Some(valor_decimal(s) as u64)
    } else {
        None
    }
}

// ---------------------------------------------------------------------------
// Facts about the specifications
// ---------------------------------------------------------------------------

/// What `buscar_desde` finds is the first occurrence.
pub proof fn lema_buscar_desde(s: Seq<char>, c: char, i: int)
    requires
        0 <= i,
    ensures
        match buscar_desde(s, c, i) {
            Some(k) => i <= k < s.len() && s[k] == c && forall|j: int|
                i <= j < k ==> s[j] != c,
            None => forall|j: int| i <= j < s.len() ==> s[j] != c,
        },
    decreases s.len() - i,
{
    if i < s.len() && s[i] != c {
        lema_buscar_desde(s, c, i + 1);
    }
}

/// A position holding `c` with no earlier `c` from `i` on is what `buscar_desde` finds.
pub proof fn lema_buscar_desde_primero(s: Seq<char>, c: char, i: int, k: int)
    requires
        0 <= i <= k < s.len(),
        s[k] == c,
        forall|j: int| i <= j < k ==> s[j] != c,
    ensures
        buscar_desde(s, c, i) == Some(k),
    decreases k - i,
{
    if i < k {
        lema_buscar_desde_primero(s, c, i + 1, k);
    }
}

/// No `c` from `i` on means `buscar_desde` finds nothing.
pub proof fn lema_buscar_desde_ninguno(s: Seq<char>, c: char, i: int)
    requires
        0 <= i,
        forall|j: int| i <= j < s.len() ==> s[j] != c,
    ensures
        buscar_desde(s, c, i) is None,
    decreases s.len() - i,
{
    if i < s.len() {
        lema_buscar_desde_ninguno(s, c, i + 1);
    }
}

/// What `buscar_texto_desde` finds is the first occurrence.
pub proof fn lema_buscar_texto_desde(s: Seq<char>, p: Seq<char>, i: int)
    requires
        0 <= i,
    ensures
        match buscar_texto_desde(s, p, i) {
            Some(k) => i <= k && coincide_en(s, p, k) && forall|j: int|
                i <= j < k ==> !coincide_en(s, p, j),
            None => forall|j: int| i <= j ==> !coincide_en(s, p, j),
        },
    decreases s.len() + 1 - i,
{
    if i + p.len() <= s.len() && !coincide_en(s, p, i) {
        lema_buscar_texto_desde(s, p, i + 1);
    }
}

/// The first `c` of `s` is the first of `s + t` too; if `s` has none, it is
/// the first of `t`, moved by the length of `s`.
pub proof fn lema_buscar_concat(s: Seq<char>, t: Seq<char>, c: char)
    ensures
        buscar(s + t, c) == match buscar(s, c) {
            Some(k) => Some(k),
            None => match buscar(t, c) {
                Some(k) => Some(k + s.len()),
                None => None,
            },
        },
{
    lema_buscar_desde(s, c, 0);
    lema_buscar_desde(t, c, 0);
    let st = s + t;
    match buscar(s, c) {
        Some(k) => {
            lema_buscar_desde_primero(st, c, 0, k);
        },
        None => {
            match buscar(t, c) {
                Some(k) => {
                    assert forall|j: int| 0 <= j < k + s.len() implies st[j] != c by {
                        if j >= s.len() {
                            assert(st[j] == t[j - s.len()]);
                        }
                    }
                    lema_buscar_desde_primero(st, c, 0, k + s.len());
                },
                None => {
                    assert forall|j: int| 0 <= j < st.len() implies st[j] != c by {
                        if j >= s.len() {
                            assert(st[j] == t[j - s.len()]);
                        }
                    }
                    lema_buscar_desde_ninguno(st, c, 0);
                },
            }
        },
    }
}

/// A trimmed text that is not empty begins and ends with a character that is
/// no white space.
pub proof fn lema_recortar_bordes(s: Seq<char>)
    ensures
        recortar(s).len() > 0 ==> !es_espacio(recortar(s)[0]) && !es_espacio(
            recortar(s).last(),
        ),
{
    lema_primer_visible(s, 0);
    lema_fin_visible(s, s.len() as int);
    if let Some(a) = primer_visible_desde(s, 0) {
        lema_fin_visible_tras(s, s.len() as int, a);
        let b = fin_visible_hasta(s, s.len() as int)->0;
        assert(recortar(s) == s.subrange(a, b));
        assert(recortar(s)[0] == s[a]);
        assert(recortar(s).last() == s[b - 1]);
    }
}

proof fn lema_fin_visible_tras(s: Seq<char>, j: int, k: int)
    requires
        0 <= k < j <= s.len(),
        !es_espacio(s[k]),
    ensures
        fin_visible_hasta(s, j) matches Some(b) && b > k,
    decreases j,
{
    if es_espacio(s[j - 1]) {
        lema_fin_visible_tras(s, j - 1, k);
    }
}

proof fn lema_primer_visible(s: Seq<char>, i: int)
    requires
        0 <= i,
    ensures
        primer_visible_desde(s, i) matches Some(a) ==> i <= a < s.len() && !es_espacio(s[a]),
    decreases s.len() - i,
{
    if i < s.len() && es_espacio(s[i]) {
        lema_primer_visible(s, i + 1);
    }
}

proof fn lema_fin_visible(s: Seq<char>, j: int)
    ensures
        fin_visible_hasta(s, j) matches Some(b) ==> 0 < b <= j && b <= s.len() && !es_espacio(
            s[b - 1],
        ),
    decreases j,
{
    if 0 < j <= s.len() && es_espacio(s[j - 1]) {
        lema_fin_visible(s, j - 1);
    }
}

/// Lexicographic byte order is reflexive.
pub proof fn lema_bytes_no_mayor_reflexivo(a: Seq<u8>)
    ensures
        bytes_no_mayor(a, a),
    decreases a.len(),
{
    if a.len() > 0 {
        lema_bytes_no_mayor_reflexivo(a.drop_first());
    }
}

/// `c` does not occur in `s`.
pub open spec fn sin(s: Seq<char>, c: char) -> bool {
    forall|i: int| 0 <= i < s.len() ==> #[trigger] s[i] != c
}

/// The text before the first `c` is a prefix of `s` without `c`, and a text
/// without `c` is all before it.
pub proof fn lema_antes_de(s: Seq<char>, c: char)
    ensures
        sin(antes_de(s, c), c),
        antes_de(s, c).len() <= s.len(),
        antes_de(s, c) == s.take(antes_de(s, c).len() as int),
        sin(s, c) ==> antes_de(s, c) == s && buscar(s, c) is None,
        !sin(s, c) ==> buscar(s, c) == Some(antes_de(s, c).len() as int),
{
    lema_buscar_desde(s, c, 0);
    if sin(s, c) {
        lema_buscar_desde_ninguno(s, c, 0);
    }
    match buscar(s, c) {
        Some(k) => {
            assert(antes_de(s, c) == s.take(k));
        },
        None => {
            assert(s.take(s.len() as int) == s);
        },
    }
}

/// A prefix of a text without `c` has no `c` either.
pub proof fn lema_sin_prefijo(s: Seq<char>, c: char, n: int)
    requires
        sin(s, c),
        0 <= n <= s.len(),
    ensures
        sin(s.take(n), c),
{
    assert forall|i: int| 0 <= i < n implies #[trigger] s.take(n)[i] != c by {
        assert(s.take(n)[i] == s[i]);
    }
}

/// The digit character for `k` is a digit of value `k`.
pub proof fn lema_digito(k: int)
    requires
        0 <= k < 10,
    ensures
        es_digito(digitos()[k]),
        (digitos()[k] as u32) - ('0' as u32) == k,
{
    let t = digitos();
    assert(t[0] == '0' && t[1] == '1' && t[2] == '2' && t[3] == '3' && t[4] == '4' && t[5]
        == '5' && t[6] == '6' && t[7] == '7' && t[8] == '8' && t[9] == '9');
    assert(('0' as u32) == 48 && ('9' as u32) == 57);
    if k == 0 {
    } else if k == 1 {
        assert(('1' as u32) == 49);
    } else if k == 2 {
        assert(('2' as u32) == 50);
    } else if k == 3 {
        assert(('3' as u32) == 51);
    } else if k == 4 {
        assert(('4' as u32) == 52);
    } else if k == 5 {
        assert(('5' as u32) == 53);
    } else if k == 6 {
        assert(('6' as u32) == 54);
    } else if k == 7 {
        assert(('7' as u32) == 55);
    } else if k == 8 {
        assert(('8' as u32) == 56);
    } else {
    }
}

/// Every character of a decimal notation is a digit.
pub proof fn lema_decimal_digitos(n: nat)
    ensures
        decimal(n).len() > 0,
        forall|i: int| 0 <= i < decimal(n).len() ==> es_digito(#[trigger] decimal(n)[i]),
        valor_decimal(decimal(n)) == n,
    decreases n,
{
    lema_digito((n % 10) as int);
    if n < 10 {
        assert(n % 10 == n);
        assert(decimal(n).drop_last() == Seq::<char>::empty());
        assert(decimal(n).last() == digitos()[n as int]);
        assert(valor_decimal(Seq::<char>::empty()) == 0);
    } else {
        lema_decimal_digitos(n / 10);
        let d = decimal(n);
        assert(d.drop_last() == decimal(n / 10));
        assert forall|i: int| 0 <= i < d.len() implies es_digito(#[trigger] d[i]) by {
            if i < d.len() - 1 {
                assert(d[i] == decimal(n / 10)[i]);
            }
        }
        assert(d.last() == digitos()[(n % 10) as int]);
        assert(valor_decimal(d) == (n / 10) * 10 + n % 10);
        assert((n / 10) * 10 + n % 10 == n) by (nonlinear_arith);
    }
}

/// Reading back the decimal notation of a 16-bit number gives the number.
pub proof fn lema_leer_decimal(n: u16)
    ensures
        leer_u16(decimal(n as nat)) == Some(n),
{
    lema_decimal_digitos(n as nat);
    let d = decimal(n as nat);
    assert(es_digito(d[0]));
    assert(sin_signo(d) == d);
}

/// A decimal notation has neither `/` nor `:`.
pub proof fn lema_decimal_sin(n: nat)
    ensures
        sin(decimal(n), '/'),
        sin(decimal(n), ':'),
{
    lema_decimal_digitos(n);
}

// ---------------------------------------------------------------------------
// Trusted std items
// ---------------------------------------------------------------------------

/// `String::push`: appends one character at the end of the string.
#[verifier::external_body]
fn empujar(s: &mut String, c: char)
    ensures
        final(s)@ == old(s)@.push(c),
{
    s.push(c);
}

/// The lower-case form of a text, as `str::to_lowercase` computes it
/// (the Unicode lower-case mapping).
pub uninterp spec fn minusculas(s: Seq<char>) -> Seq<char>;

/// `str::to_lowercase`: the lower-case form of `s`. Nothing is stated of the
/// mapping itself; it is named by `minusculas`.
#[verifier::external_body]
pub(crate) fn a_minusculas(s: &str) -> (r: String)
    ensures
        r@ == minusculas(s@),
{
    s.to_lowercase()
}

// ---------------------------------------------------------------------------
// Executable operations
// ---------------------------------------------------------------------------

/// The characters of a string slice, in order.
pub fn caracteres(s: &str) -> (r: Vec<char>)
    ensures
        r@ == s@,
{
    let mut r: Vec<char> = Vec::new();
    for c in it: s.chars()
        invariant
            r@ == it.seq().take(it.index() as int),
    {
        r.push(c);
    }
    r
}

/// The string made of the characters `v`.
pub fn cadena(v: &[char]) -> (r: String)
    ensures
        r@ == v@,
{
    let mut r = String::new();
    let n = v.len();
    for i in 0..n
        invariant
            n == v@.len(),
            r@ == v@.take(i as int),
    {
        empujar(&mut r, v[i]);
        assert(v@.take(i as int).push(v@[i as int]) == v@.take(i + 1));
    }
    assert(v@.take(n as int) == v@);
    r
}

/// Appends the characters `b` to `a`.
pub fn anexar(a: &mut Vec<char>, b: &[char])
    ensures
        final(a)@ == old(a)@ + b@,
{
    let n = b.len();
    for i in 0..n
        invariant
            n == b@.len(),
            a@ == old(a)@ + b@.take(i as int),
    {
        a.push(b[i]);
        assert(b@.take(i as int).push(b@[i as int]) == b@.take(i + 1));
    }
    assert(b@.take(n as int) == b@);
}

/// The characters `s[desde..hasta]`.
pub fn tramo(s: &[char], desde: usize, hasta: usize) -> (r: Vec<char>)
    requires
        desde <= hasta <= s@.len(),
    ensures
        r@ == s@.subrange(desde as int, hasta as int),
{
    let mut r: Vec<char> = Vec::new();
    let mut i = desde;
    while i < hasta
        invariant
            desde <= i <= hasta <= s@.len(),
            r@ == s@.subrange(desde as int, i as int),
        decreases hasta - i,
    {
        r.push(s[i]);
        assert(s@.subrange(desde as int, i as int).push(s@[i as int]) == s@.subrange(
            desde as int,
            i + 1,
        ));
        i = i + 1;
    }
    r
}

/// Whether `s` and `t` hold the same characters.
pub fn iguales(s: &[char], t: &[char]) -> (r: bool)
    ensures
        r == (s@ == t@),
{
    if s.len() != t.len() {
        return false;
    }
    let n = s.len();
    for i in 0..n
        invariant
            n == s@.len() == t@.len(),
            forall|j: int| 0 <= j < i ==> s@[j] == t@[j],
    {
        if s[i] != t[i] {
            return false;
        }
    }
    assert(s@ == t@);
    true
}

/// Whether `s` begins with `p`.
pub fn empieza(s: &[char], p: &[char]) -> (r: bool)
    ensures
        r == empieza_con(s@, p@),
{
    if p.len() > s.len() {
        return false;
    }
    let n = p.len();
    for i in 0..n
        invariant
            n == p@.len() <= s@.len(),
            forall|j: int| 0 <= j < i ==> s@[j] == p@[j],
    {
        if s[i] != p[i] {
            assert(s@.take(n as int)[i as int] != p@[i as int]);
            return false;
        }
    }
    assert(s@.take(n as int) == p@);
    true
}

/// The first position of `c` in `s`.
pub fn posicion(s: &[char], c: char) -> (r: Option<usize>)
    ensures
        match r {
            Some(i) => buscar(s@, c) == Some(i as int),
            None => buscar(s@, c) is None,
        },
{
    let n = s.len();
    for i in 0..n
        invariant
            n == s@.len(),
            buscar(s@, c) == buscar_desde(s@, c, i as int),
    {
        if s[i] == c {
            return Some(i);
        }
    }
    None
}

/// The first position of the text `p` in `s`.
pub fn posicion_texto(s: &[char], p: &[char]) -> (r: Option<usize>)
    ensures
        match r {
            Some(i) => buscar_texto(s@, p@) == Some(i as int),
            None => buscar_texto(s@, p@) is None,
        },
{
    if p.len() > s.len() {
        return None;
    }
    if p.len() == 0 {
        assert(s@.subrange(0, 0) == p@);
        return Some(0);
    }
    let m = s.len();
    let n = m - p.len();
    let mut i: usize = 0;
    while i <= n
        invariant
            m == s@.len(),
            n + p@.len() == m,
            p@.len() > 0,
            i <= n + 1,
            buscar_texto(s@, p@) == buscar_texto_desde(s@, p@, i as int),
        decreases n + 1 - i,
    {
        let mut ok = true;
        let mut j: usize = 0;
        while j < p.len()
            invariant
                m == s@.len(),
                n + p@.len() == m,
                i <= n,
                j <= p@.len(),
                ok == (forall|k: int| 0 <= k < j ==> s@[i + k] == p@[k]),
            decreases p@.len() - j,
        {
            if s[i + j] != p[j] {
                ok = false;
            }
            j = j + 1;
        }
        if ok {
            assert(s@.subrange(i as int, i + p@.len()) == p@);
            return Some(i);
        } else {
            assert(!coincide_en(s@, p@, i as int)) by {
                if coincide_en(s@, p@, i as int) {
                    assert forall|k: int| 0 <= k < p@.len() implies s@[i + k] == p@[k] by {
                        assert(s@.subrange(i as int, i + p@.len())[k] == s@[i + k]);
                    }
                }
            }
        }
        i = i + 1;
    }
    None
}

/// The text before the first `c` (`s[..i]` where `s.find(c) == Some(i)`).
pub fn antes(s: &[char], c: char) -> (r: Vec<char>)
    ensures
        r@ == antes_de(s@, c),
{
    proof {
        lema_buscar_desde(s@, c, 0);
    }
    match posicion(s, c) {
        Some(i) => tramo(s, 0, i),
        None => {
            assert(s@.subrange(0, s@.len() as int) == s@);
            tramo(s, 0, s.len())
        },
    }
}

/// The text from the first `c` on (`s[i..]` where `s.find(c) == Some(i)`).
pub fn desde(s: &[char], c: char) -> (r: Vec<char>)
    ensures
        r@ == desde_el(s@, c),
{
    proof {
        lema_buscar_desde(s@, c, 0);
    }
    match posicion(s, c) {
        Some(i) => tramo(s, i, s.len()),
        None => Vec::new(),
    }
}

/// The text after the first `c` (`s[i + 1..]` where `s.find(c) == Some(i)`).
pub fn tras(s: &[char], c: char) -> (r: Option<Vec<char>>)
    ensures
        match r {
            Some(t) => tras_el(s@, c) == Some(t@),
            None => tras_el(s@, c) is None,
        },
{
    proof {
        lema_buscar_desde(s@, c, 0);
    }
    let n = s.len();
    match posicion(s, c) {
        Some(i) => Some(tramo(s, i + 1, n)),
        None => None,
    }
}

/// Whether `c` is white space (`char::is_whitespace`).
pub fn espacio(c: char) -> (r: bool)
    ensures
        r == es_espacio(c),
{
    let u = c as u32;
    (0x09 <= u && u <= 0x0d) || u == 0x20 || u == 0x85 || u == 0xa0 || u == 0x1680 || (0x2000
        <= u && u <= 0x200a) || u == 0x2028 || u == 0x2029 || u == 0x202f || u == 0x205f || u
        == 0x3000
}

/// `s` without leading and trailing white space.
pub fn recorte(s: &[char]) -> (r: Vec<char>)
    ensures
        r@ == recortar(s@),
{
    let n = s.len();
    let mut a: usize = 0;
    while a < n && espacio(s[a])
        invariant
            n == s@.len(),
            a <= n,
            primer_visible_desde(s@, 0) == primer_visible_desde(s@, a as int),
        decreases n - a,
    {
        a = a + 1;
    }
    if a == n {
        return Vec::new();
    }
    let mut b: usize = n;
    while b > a + 1 && espacio(s[b - 1])
        invariant
            n == s@.len(),
            a < b <= n,
            !es_espacio(s@[a as int]),
            fin_visible_hasta(s@, n as int) == fin_visible_hasta(s@, b as int),
        decreases b,
    {
        b = b - 1;
    }
    tramo(s, a, b)
}

/// The words of `s` (`str::split_whitespace`).
pub fn separar_palabras(s: &[char]) -> (r: Vec<Vec<char>>)
    ensures
        vistas(r@) == palabras(s@),
{
    let n = s.len();
    let mut hechas: Vec<Vec<char>> = Vec::new();
    let mut actual: Vec<char> = Vec::new();
    for i in 0..n
        invariant
            n == s@.len(),
            palabras(s@) == vistas(hechas@) + palabras_desde(s@, i as int, actual@),
    {
        if espacio(s[i]) {
            if actual.len() > 0 {
                let ghost antes = vistas(hechas@);
                let ghost a = actual@;
                hechas.push(actual);
                assert(vistas(hechas@) =~= antes + seq![a]);
            }
            actual = Vec::new();
        } else {
            actual.push(s[i]);
        }
    }
    if actual.len() > 0 {
        let ghost antes = vistas(hechas@);
        let ghost a = actual@;
        hechas.push(actual);
        assert(vistas(hechas@) =~= antes + seq![a]);
    }
    hechas
}

/// The pieces of `s` between occurrences of `sep` (`str::split`).
pub fn separar(s: &[char], sep: char) -> (r: Vec<Vec<char>>)
    ensures
        vistas(r@) == trozos(s@, sep),
{
    let n = s.len();
    let mut hechas: Vec<Vec<char>> = Vec::new();
    let mut actual: Vec<char> = Vec::new();
    for i in 0..n
        invariant
            n == s@.len(),
            trozos(s@, sep) == vistas(hechas@) + trozos_desde(s@, sep, i as int, actual@),
    {
        if s[i] == sep {
            let ghost antes = vistas(hechas@);
            let ghost a = actual@;
            hechas.push(actual);
            assert(vistas(hechas@) =~= antes + seq![a]);
            actual = Vec::new();
        } else {
            actual.push(s[i]);
        }
    }
    let ghost antes = vistas(hechas@);
    let ghost a = actual@;
    hechas.push(actual);
    assert(vistas(hechas@) =~= antes + seq![a]);
    hechas
}

/// The digit character for `d`.
fn digito(d: u8) -> (c: char)
    requires
        d < 16,
    ensures
        c == digitos_hex()[d as int],
        d < 10 ==> c == digitos()[d as int],
{
    let tabla: [char; 16] = [
        '0', '1', '2', '3', '4', '5', '6', '7', '8', '9', 'a', 'b', 'c', 'd', 'e', 'f',
    ];
    assert(tabla@ == digitos_hex());
    tabla[d as usize]
}

/// Appends the decimal notation of `n` to `out`.
pub fn escribir_decimal(n: u128, out: &mut Vec<char>)
    ensures
        final(out)@ == old(out)@ + decimal(n as nat),
    decreases n,
{
    if n >= 10 {
        escribir_decimal(n / 10, out);
    }
    let d = (n % 10) as u8;
    let c = digito(d);
    out.push(c);
}

/// The value of `s` read as a 16-bit unsigned number (`str::parse::<u16>`).
pub fn leer_puerto(s: &[char]) -> (r: Option<u16>)
    ensures
        r == leer_u16(s@),
{
    let n = s.len();
    let inicio: usize = if n > 0 && s[0] == '+' {
        1
    } else {
        0
    };
    let ghost d = s@.subrange(inicio as int, n as int);
    assert(d == sin_signo(s@));
    if inicio == n {
        return None;
    }
    let mut valor: u32 = 0;
    let mut desborde = false;
    for i in inicio..n
        invariant
            n == s@.len(),
            inicio < n,
            d == s@.subrange(inicio as int, n as int),
            d == sin_signo(s@),
            forall|k: int| inicio <= k < i ==> es_digito(#[trigger] s@[k]),
            !desborde ==> valor == valor_decimal(s@.subrange(inicio as int, i as int)) && valor
                <= 0xffff,
            desborde ==> valor_decimal(s@.subrange(inicio as int, i as int)) > 0xffff,
    {
        let c = s[i];
        if !('0' <= c && c <= '9') {
            assert(!es_digito(d[i - inicio]));
            assert(!(forall|k: int| 0 <= k < d.len() ==> es_digito(#[trigger] d[k])));
            assert(leer_u16(s@) is None);
            return None;
        }
        let ghost antes = s@.subrange(inicio as int, i as int);
        assert(s@.subrange(inicio as int, i + 1).drop_last() == antes);
        if !desborde {
            valor = valor * 10 + ((c as u32) - ('0' as u32));
            if valor > 0xffff {
                desborde = true;
            }
        }
    }
    assert(s@.subrange(inicio as int, n as int) == d);
    if desborde {
        None
    } else {
        Some(valor as u16)
    }
}

/// The lower-case hexadecimal notation of `b`.
pub fn hexadecimal(b: &[u8]) -> (r: Vec<char>)
    ensures
        r@ == hex(b@),
{
    let n = b.len();
    let mut r: Vec<char> = Vec::new();
    for i in 0..n
        invariant
            n == b@.len(),
            r@ == hex(b@.take(i as int)),
    {
        let x = b[i];
        let alto = digito(x / 16);
        let bajo = digito(x % 16);
        r.push(alto);
        r.push(bajo);
        assert(b@.take(i + 1).drop_last() == b@.take(i as int));
    }
    assert(b@.take(n as int) == b@);
    r
}

/// Whether `a` is not after `b` in lexicographic byte order.
pub fn no_mayor(a: &[u8], b: &[u8]) -> (r: bool)
    ensures
        r == bytes_no_mayor(a@, b@),
{
    let mut i: usize = 0;
    assert(a@.skip(0) == a@ && b@.skip(0) == b@);
    while i < a.len()
        invariant
            i <= a@.len(),
            i <= b@.len(),
            bytes_no_mayor(a@, b@) == bytes_no_mayor(a@.skip(i as int), b@.skip(i as int)),
        decreases a@.len() - i,
    {
        if i >= b.len() {
            return false;
        }
        if a[i] != b[i] {
            return a[i] < b[i];
        }
        assert(a@.skip(i as int).drop_first() == a@.skip(i + 1));
        assert(b@.skip(i as int).drop_first() == b@.skip(i + 1));
        i = i + 1;
    }
    true
}

/// The value of `s` read as a 64-bit number written in ASCII digits only.
pub fn leer_numero(s: &[char]) -> (r: Option<u64>)
    ensures
        r == leer_u64(s@),
{
    let n = s.len();
    if n == 0 {
        return None;
    }
    let mut valor: u128 = 0;
    let mut desborde = false;
    for i in 0..n
        invariant
            n == s@.len(),
            n > 0,
            forall|k: int| 0 <= k < i ==> es_digito(#[trigger] s@[k]),
            !desborde ==> valor == valor_decimal(s@.take(i as int)) && valor <= u64::MAX,
            desborde ==> valor_decimal(s@.take(i as int)) > u64::MAX,
    {
        let c = s[i];
        if !('0' <= c && c <= '9') {
            assert(!es_digito(s@[i as int]));
            assert(leer_u64(s@) is None);
            return None;
        }
        assert(s@.take(i + 1).drop_last() == s@.take(i as int));
        if !desborde {
            valor = valor * 10 + ((c as u32) - ('0' as u32)) as u128;
            if valor > u64::MAX as u128 {
                desborde = true;
            }
        }
    }
    assert(s@.take(n as int) == s@);
    if desborde {
        None
    } else {
        Some(valor as u64)
    }
}

} // verus!
