//! Text as sequences of characters: the model that every contract of the
//! crate speaks of, and the verified operations on it (lines, trimming,
//! prefixes, substrings, decimal numbers).
use vstd::prelude::*;

verus! {

// ---------------------------------------------------------------- model

/// First index `k >= i` with `p(s[k])`, or `s.len()` when there is none.
pub open spec fn primeiro(s: Seq<char>, i: int, p: spec_fn(char) -> bool) -> int
    decreases s.len() - i,
{
    if i >= s.len() {
        s.len() as int
    } else if p(s[i]) {
        i
    } else {
        primeiro(s, i + 1, p)
    }
}

/// `primeiro` is the first index that satisfies `p`.
pub proof fn lemma_primeiro(s: Seq<char>, i: int, p: spec_fn(char) -> bool)
    requires
        0 <= i <= s.len(),
    ensures
        i <= primeiro(s, i, p) <= s.len(),
        forall|k: int| i <= k < primeiro(s, i, p) ==> !p(#[trigger] s[k]),
        primeiro(s, i, p) < s.len() ==> p(s[primeiro(s, i, p)]),
    decreases s.len() - i,
{
    if i < s.len() && !p(s[i]) {
        lemma_primeiro(s, i + 1, p);
    }
}

/// Any index with the defining properties is `primeiro`.
pub proof fn lemma_primeiro_e(s: Seq<char>, i: int, r: int, p: spec_fn(char) -> bool)
    requires
        0 <= i <= r <= s.len(),
        forall|k: int| i <= k < r ==> !p(#[trigger] s[k]),
        r < s.len() ==> p(s[r]),
    ensures
        primeiro(s, i, p) == r,
    decreases r - i,
{
    if i < r {
        lemma_primeiro_e(s, i + 1, r, p);
    }
}

/// Rust's `char::is_whitespace`: the Unicode `White_Space` property.
pub open spec fn eh_espaco(c: char) -> bool {
    ||| c == ' '
    ||| ('\t' <= c && c <= '\r')
    ||| c == '\u{85}'
    ||| c == '\u{a0}'
    ||| c == '\u{1680}'
    ||| ('\u{2000}' <= c && c <= '\u{200a}')
    ||| c == '\u{2028}'
    ||| c == '\u{2029}'
    ||| c == '\u{202f}'
    ||| c == '\u{205f}'
    ||| c == '\u{3000}'
}

/// `char::is_ascii_digit`.
pub open spec fn eh_digito(c: char) -> bool {
    '0' <= c && c <= '9'
}

/// `char::is_ascii_hexdigit`.
pub open spec fn eh_hex(c: char) -> bool {
    ||| ('0' <= c && c <= '9')
    ||| ('a' <= c && c <= 'f')
    ||| ('A' <= c && c <= 'F')
}

pub open spec fn nao_espaco() -> spec_fn(char) -> bool {
    |c: char| !eh_espaco(c)
}

/// `str::trim_start`.
pub open spec fn aparar_inicio(s: Seq<char>) -> Seq<char> {
    s.skip(primeiro(s, 0, nao_espaco()))
}

/// End of `s.take(j)` once trailing whitespace is dropped.
pub open spec fn fim_sem_espaco(s: Seq<char>, j: int) -> int
    decreases j,
{
    if j <= 0 {
        0
    } else if !eh_espaco(s[j - 1]) {
        j
    } else {
        fim_sem_espaco(s, j - 1)
    }
}

/// `str::trim_end`.
pub open spec fn aparar_fim(s: Seq<char>) -> Seq<char> {
    s.take(fim_sem_espaco(s, s.len() as int))
}

/// `str::trim`.
pub open spec fn aparar(s: Seq<char>) -> Seq<char> {
    aparar_fim(aparar_inicio(s))
}

/// `str::starts_with`.
pub open spec fn comeca_com(s: Seq<char>, p: Seq<char>) -> bool {
    p.len() <= s.len() && s.take(p.len() as int) == p
}

/// `str::ends_with`.
pub open spec fn termina_com(s: Seq<char>, p: Seq<char>) -> bool {
    p.len() <= s.len() && s.skip(s.len() - p.len()) == p
}

/// `p` occurs in `s` at index `k`.
pub open spec fn ocorre_em(s: Seq<char>, p: Seq<char>, k: int) -> bool {
    0 <= k && k + p.len() <= s.len() && s.subrange(k, k + p.len()) == p
}

/// `str::contains`.
pub open spec fn contem(s: Seq<char>, p: Seq<char>) -> bool {
    exists|k: int| ocorre_em(s, p, k)
}

pub open spec fn eh_quebra() -> spec_fn(char) -> bool {
    |c: char| c == '\n'
}

/// The pieces of `s.skip(i)` cut after each `'\n'` (`str::split_inclusive('\n')`).
pub open spec fn pedacos_desde(s: Seq<char>, i: int) -> Seq<Seq<char>>
    decreases s.len() - i,
{
    if i < 0 || i >= s.len() {
        Seq::empty()
    } else {
        let k = primeiro(s, i, eh_quebra());
        if k >= s.len() {
            seq![s.subrange(i, s.len() as int)]
        } else {
            proof {
                lemma_primeiro(s, i, eh_quebra());
            }
            seq![s.subrange(i, k + 1)] + pedacos_desde(s, k + 1)
        }
    }
}

pub open spec fn pedacos(s: Seq<char>) -> Seq<Seq<char>> {
    pedacos_desde(s, 0)
}

/// A piece without its line ending: a final `'\n'`, and then a `'\r'` before it.
pub open spec fn sem_quebra(p: Seq<char>) -> Seq<char> {
    if p.len() > 0 && p.last() == '\n' {
        let q = p.drop_last();
        if q.len() > 0 && q.last() == '\r' {
            q.drop_last()
        } else {
            q
        }
    } else {
        p
    }
}

/// `str::lines`.
pub open spec fn linhas(s: Seq<char>) -> Seq<Seq<char>> {
    pedacos(s).map_values(|p: Seq<char>| sem_quebra(p))
}

/// Value of one ASCII decimal digit.
pub open spec fn valor_digito(c: char) -> nat {
    (c as int - 48) as nat
}

/// Value of a run of ASCII decimal digits.
pub open spec fn valor_decimal(d: Seq<char>) -> nat
    decreases d.len(),
{
    if d.len() == 0 {
        0
    } else {
        valor_decimal(d.drop_last()) * 10 + valor_digito(d.last())
    }
}

pub open spec fn digito_de(d: nat) -> char {
    if d == 0 { '0' }
    else if d == 1 { '1' }
    else if d == 2 { '2' }
    else if d == 3 { '3' }
    else if d == 4 { '4' }
    else if d == 5 { '5' }
    else if d == 6 { '6' }
    else if d == 7 { '7' }
    else if d == 8 { '8' }
    else { '9' }
}

/// Decimal representation of `n`, without leading zeros (`"0"` for zero).
pub open spec fn decimal(n: nat) -> Seq<char>
    decreases n,
{
    if n < 10 {
        seq![digito_de(n)]
    } else {
        decimal(n / 10).push(digito_de(n % 10))
    }
}

/// Decimal representation of a signed number, as `Display` writes it.
pub open spec fn decimal_com_sinal(n: int) -> Seq<char> {
    if n < 0 {
        seq!['-'] + decimal((-n) as nat)
    } else {
        decimal(n as nat)
    }
}

/// The texts held by a vector of character vectors.
pub open spec fn vistas(v: Seq<Vec<char>>) -> Seq<Seq<char>> {
    v.map_values(|x: Vec<char>| x@)
}

// ---------------------------------------------------------------- exec

/// Appends one character to a string: a call of `String::push`, whose
/// contract here, taken on trust, is what its documentation says, that the
/// string afterwards is the old one with `c` at its end.
#[verifier::external_body]
pub(crate) fn empurrar(s: &mut String, c: char)
    ensures
        final(s)@ == old(s)@.push(c),
{
    s.push(c);
}

/// The characters of a string slice, in order.
pub fn caracteres(s: &str) -> (v: Vec<char>)
    ensures
        v@ == s@,
{
    let mut v: Vec<char> = Vec::new();
    for c in it: s.chars()
        invariant
            v@ == it.seq().take(it.index() as int),
            it.seq() == s@,
    {
        v.push(c);
    }
    v
}

/// Appends characters to a string.
pub fn anexar(s: &mut String, v: &[char])
    ensures
        final(s)@ == old(s)@ + v@,
{
    let ghost inicial = s@;
    let mut i: usize = 0;
    while i < v.len()
        invariant
            i <= v@.len(),
            s@ == inicial + v@.take(i as int),
        decreases v.len() - i,
    {
        empurrar(s, v[i]);
        i = i + 1;
        assert(v@.take(i as int) == v@.take(i - 1).push(v@[i - 1]));
    }
    assert(v@.take(v@.len() as int) == v@);
}

/// A string with the given characters.
pub fn texto_de(v: &[char]) -> (s: String)
    ensures
        s@ == v@,
{
    let mut s = String::new();
    anexar(&mut s, v);
    s
}

/// Equality of two character sequences.
pub fn iguais(a: &[char], b: &[char]) -> (r: bool)
    ensures
        r == (a@ == b@),
{
    if a.len() != b.len() {
        return false;
    }
    let mut i: usize = 0;
    while i < a.len()
        invariant
            a@.len() == b@.len(),
            i <= a@.len(),
            forall|k: int| 0 <= k < i ==> a@[k] == b@[k],
        decreases a.len() - i,
    {
        if a[i] != b[i] {
            return false;
        }
        i = i + 1;
    }
    assert(a@ =~= b@);
    true
}

/// Whether `p` occurs in `s` at index `k`.
pub fn ocorre_na_posicao(s: &[char], p: &[char], k: usize) -> (r: bool)
    ensures
        r == ocorre_em(s@, p@, k as int),
{
    if k > s.len() || p.len() > s.len() - k {
        return false;
    }
    let n: usize = s.len();
    let mut i: usize = 0;
    while i < p.len()
        invariant
            n == s@.len(),
            k + p@.len() <= s@.len(),
            i <= p@.len(),
            forall|j: int| 0 <= j < i ==> s@[k + j] == p@[j],
        decreases p.len() - i,
    {
        assert(k + i < s@.len());
        if s[k + i] != p[i] {
            assert(s@.subrange(k as int, k + p@.len())[i as int] != p@[i as int]);
            return false;
        }
        i = i + 1;
    }
    assert(s@.subrange(k as int, k + p@.len()) =~= p@);
    true
}

/// `str::starts_with`.
pub fn comeca(s: &[char], p: &[char]) -> (r: bool)
    ensures
        r == comeca_com(s@, p@),
{
    let r = ocorre_na_posicao(s, p, 0);
    proof {
        if p@.len() <= s@.len() {
            assert(s@.subrange(0, p@.len() as int) == s@.take(p@.len() as int));
        }
    }
    r
}

/// `str::starts_with` with a literal prefix.
pub fn comeca_str(s: &[char], p: &str) -> (r: bool)
    ensures
        r == comeca_com(s@, p@),
{
    let pv = caracteres(p);
    comeca(s, pv.as_slice())
}

/// `str::ends_with`.
pub fn termina(s: &[char], p: &[char]) -> (r: bool)
    ensures
        r == termina_com(s@, p@),
{
    if p.len() > s.len() {
        return false;
    }
    let r = ocorre_na_posicao(s, p, s.len() - p.len());
    proof {
        assert(s@.subrange(s@.len() - p@.len(), s@.len() as int) == s@.skip(s@.len() - p@.len()));
    }
    r
}

/// First index at or after `i` where `p` occurs in `s`, if any.
pub fn procurar(s: &[char], p: &[char], i: usize) -> (r: Option<usize>)
    requires
        i <= s@.len(),
    ensures
        r matches Some(k) ==> i <= k && ocorre_em(s@, p@, k as int) && forall|j: int|
            i <= j < k ==> !ocorre_em(s@, p@, j),
        r is None ==> forall|j: int| i <= j ==> !ocorre_em(s@, p@, j),
{
    let mut k: usize = i;
    loop
        invariant
            i <= k <= s@.len(),
            forall|j: int| i <= j < k ==> !ocorre_em(s@, p@, j),
        decreases s@.len() - k,
    {
        if ocorre_na_posicao(s, p, k) {
            return Some(k);
        }
        if k == s.len() {
            assert forall|j: int| i <= j implies !ocorre_em(s@, p@, j) by {
                if j > k {
                    assert(j + p@.len() > s@.len());
                }
            }
            return None;
        }
        k = k + 1;
    }
}

/// `str::contains`.
pub fn contem_str(s: &[char], p: &str) -> (r: bool)
    ensures
        r == contem(s@, p@),
{
    let pv = caracteres(p);
    match procurar(s, pv.as_slice(), 0) {
        Some(_) => true,
        None => false,
    }
}

/// Whether `c` is whitespace (`char::is_whitespace`).
pub fn espaco(c: char) -> (r: bool)
    ensures
        r == eh_espaco(c),
{
    c == ' ' || ('\t' <= c && c <= '\r') || c == '\u{85}' || c == '\u{a0}' || c == '\u{1680}'
        || ('\u{2000}' <= c && c <= '\u{200a}') || c == '\u{2028}' || c == '\u{2029}' || c
        == '\u{202f}' || c == '\u{205f}' || c == '\u{3000}'
}

/// `str::trim_start`.
pub fn sem_espaco_inicial(s: &[char]) -> (r: Vec<char>)
    ensures
        r@ == aparar_inicio(s@),
{
    let mut i: usize = 0;
    while i < s.len() && espaco(s[i])
        invariant
            i <= s@.len(),
            forall|k: int| 0 <= k < i ==> eh_espaco(#[trigger] s@[k]),
        decreases s.len() - i,
    {
        i = i + 1;
    }
    proof {
        lemma_primeiro_e(s@, 0, i as int, nao_espaco());
    }
    copiar(s, i, s.len())
}

/// `str::trim_end`.
pub fn sem_espaco_final(s: &[char]) -> (r: Vec<char>)
    ensures
        r@ == aparar_fim(s@),
{
    let mut j: usize = s.len();
    while j > 0 && espaco(s[j - 1])
        invariant
            j <= s@.len(),
            fim_sem_espaco(s@, j as int) == fim_sem_espaco(s@, s@.len() as int),
        decreases j,
    {
        j = j - 1;
    }
    copiar(s, 0, j)
}

/// `str::trim`.
pub fn sem_espacos(s: &[char]) -> (r: Vec<char>)
    ensures
        r@ == aparar(s@),
{
    let a = sem_espaco_inicial(s);
    sem_espaco_final(a.as_slice())
}

/// The characters of `s` from `i` to `j`.
pub fn copiar(s: &[char], i: usize, j: usize) -> (r: Vec<char>)
    requires
        i <= j <= s@.len(),
    ensures
        r@ == s@.subrange(i as int, j as int),
{
    let mut r: Vec<char> = Vec::new();
    let mut k: usize = i;
    while k < j
        invariant
            i <= k <= j <= s@.len(),
            r@ == s@.subrange(i as int, k as int),
        decreases j - k,
    {
        r.push(s[k]);
        k = k + 1;
        assert(r@ =~= s@.subrange(i as int, k as int));
    }
    r
}

/// `split_inclusive('\n')` from index `i` is one piece then the rest.
proof fn lemma_pedacos_passo(s: Seq<char>, i: int)
    requires
        0 <= i < s.len(),
    ensures
        ({
            let k = primeiro(s, i, eh_quebra());
            &&& i <= k <= s.len()
            &&& k < s.len() ==> pedacos_desde(s, i) == seq![s.subrange(i, k + 1)] + pedacos_desde(
                s,
                k + 1,
            )
            &&& k == s.len() ==> pedacos_desde(s, i) == seq![s.subrange(i, s.len() as int)]
        }),
{
    lemma_primeiro(s, i, eh_quebra());
}

/// The pieces of `s` cut after each `'\n'` (`split_inclusive('\n')`).
pub fn dividir_pedacos(s: &[char]) -> (r: Vec<Vec<char>>)
    ensures
        vistas(r@) == pedacos(s@),
{
    let mut r: Vec<Vec<char>> = Vec::new();
    let mut i: usize = 0;
    while i < s.len()
        invariant
            i <= s@.len(),
            vistas(r@) + pedacos_desde(s@, i as int) == pedacos(s@),
        decreases s.len() - i,
    {
        let mut k: usize = i;
        while k < s.len() && s[k] != '\n'
            invariant
                i <= k <= s@.len(),
                forall|j: int| i <= j < k ==> s@[j] != '\n',
            decreases s.len() - k,
        {
            k = k + 1;
        }
        proof {
            lemma_primeiro_e(s@, i as int, k as int, eh_quebra());
            lemma_pedacos_passo(s@, i as int);
        }
        let ghost antes = vistas(r@);
        if k < s.len() {
            let p = copiar(s, i, k + 1);
            r.push(p);
            assert(vistas(r@) =~= antes.push(s@.subrange(i as int, k + 1)));
            assert(antes + pedacos_desde(s@, i as int) =~= vistas(r@) + pedacos_desde(
                s@,
                k + 1,
            ));
            i = k + 1;
        } else {
            let p = copiar(s, i, s.len());
            r.push(p);
            assert(vistas(r@) =~= antes.push(s@.subrange(i as int, s@.len() as int)));
            assert(antes + pedacos_desde(s@, i as int) =~= vistas(r@) + pedacos_desde(
                s@,
                s@.len() as int,
            ));
            i = s.len();
        }
    }
    assert(vistas(r@) =~= pedacos(s@));
    r
}

/// A piece without its line ending.
pub fn tirar_quebra(p: &[char]) -> (r: Vec<char>)
    ensures
        r@ == sem_quebra(p@),
{
    let n = p.len();
    if n > 0 && p[n - 1] == '\n' {
        if n > 1 && p[n - 2] == '\r' {
            copiar(p, 0, n - 2)
        } else {
            copiar(p, 0, n - 1)
        }
    } else {
        copiar(p, 0, n)
    }
}

/// The lines of `s` (`str::lines`).
pub fn dividir_linhas(s: &[char]) -> (r: Vec<Vec<char>>)
    ensures
        vistas(r@) == linhas(s@),
{
    let ps = dividir_pedacos(s);
    let mut r: Vec<Vec<char>> = Vec::new();
    let mut i: usize = 0;
    while i < ps.len()
        invariant
            i <= ps@.len(),
            vistas(ps@) == pedacos(s@),
            r@.len() == i,
            vistas(r@) == linhas(s@).take(i as int),
        decreases ps.len() - i,
    {
        let l = tirar_quebra(ps[i].as_slice());
        let ghost antes = vistas(r@);
        r.push(l);
        proof {
            assert(vistas(ps@)[i as int] == ps@[i as int]@);
            assert(linhas(s@)[i as int] == sem_quebra(pedacos(s@)[i as int]));
            assert(vistas(r@)[i as int] == l@);
            assert(vistas(r@) =~= linhas(s@).take(i + 1));
        }
        i = i + 1;
    }
    assert(linhas(s@).take(ps@.len() as int) =~= linhas(s@));
    r
}

} // verus!

verus! {

// ---------------------------------------------------------------- more model

/// `sep`-separated concatenation (`[..].join(sep)`).
pub open spec fn juntar(ss: Seq<Seq<char>>, sep: Seq<char>) -> Seq<char>
    decreases ss.len(),
{
    if ss.len() == 0 {
        Seq::empty()
    } else if ss.len() == 1 {
        ss[0]
    } else {
        juntar(ss.drop_last(), sep) + sep + ss.last()
    }
}

/// `format!("{:<w$}", s)`: `s` followed by spaces up to `w` characters.
pub open spec fn alinhar_esquerda(s: Seq<char>, w: nat) -> Seq<char> {
    if s.len() >= w {
        s
    } else {
        s + Seq::new((w - s.len()) as nat, |i: int| ' ')
    }
}

/// `format!("{:>w$}", s)`: spaces up to `w` characters, then `s`.
pub open spec fn alinhar_direita(s: Seq<char>, w: nat) -> Seq<char> {
    if s.len() >= w {
        s
    } else {
        Seq::new((w - s.len()) as nat, |i: int| ' ') + s
    }
}

/// Lexicographic order of texts by code point (the order of `String`).
pub open spec fn lex_menor(a: Seq<char>, b: Seq<char>) -> bool
    decreases a.len(),
{
    if a.len() == 0 {
        b.len() > 0
    } else if b.len() == 0 {
        false
    } else if a[0] != b[0] {
        (a[0] as u32) < (b[0] as u32)
    } else {
        lex_menor(a.drop_first(), b.drop_first())
    }
}

/// `lex_menor` is transitive.
pub proof fn lemma_lex_transitiva(a: Seq<char>, b: Seq<char>, c: Seq<char>)
    requires
        lex_menor(a, b),
        lex_menor(b, c),
    ensures
        lex_menor(a, c),
    decreases a.len(),
{
    if a.len() > 0 && b.len() > 0 && c.len() > 0 && a[0] == b[0] && b[0] == c[0] {
        lemma_lex_transitiva(a.drop_first(), b.drop_first(), c.drop_first());
    }
}

/// `lex_menor` is asymmetric (and so irreflexive).
pub proof fn lemma_lex_assimetrica(a: Seq<char>, b: Seq<char>)
    ensures
        !(lex_menor(a, b) && lex_menor(b, a)),
    decreases a.len(),
{
    if a.len() > 0 && b.len() > 0 && a[0] == b[0] {
        lemma_lex_assimetrica(a.drop_first(), b.drop_first());
    }
}

/// `a` comes before `b` when they agree before index `d` and there `a`
/// ends first or has the smaller character.
pub proof fn lemma_lex_em(a: Seq<char>, b: Seq<char>, d: int)
    requires
        0 <= d <= a.len(),
        d <= b.len(),
        forall|i: int| 0 <= i < d ==> a[i] == b[i],
        (d == a.len() && d < b.len()) || (d < a.len() && d < b.len() && (a[d] as u32) < (b[d] as u32)),
    ensures
        lex_menor(a, b),
    decreases d,
{
    if d > 0 {
        assert(a[0] == b[0]);
        assert forall|i: int| 0 <= i < d - 1 implies a.drop_first()[i] == b.drop_first()[i] by {
            assert(a[i + 1] == b[i + 1]);
        }
        lemma_lex_em(a.drop_first(), b.drop_first(), d - 1);
    }
}

/// Every character is an ASCII digit.
pub open spec fn so_digitos(d: Seq<char>) -> bool {
    forall|i: int| 0 <= i < d.len() ==> eh_digito(#[trigger] d[i])
}

/// The value of `s` read as an unsigned integer by `str::parse`: an optional
/// `'+'`, then at least one ASCII digit and nothing else.
pub open spec fn inteiro_sem_sinal(s: Seq<char>) -> Option<nat> {
    let d = if s.len() > 0 && s[0] == '+' {
        s.drop_first()
    } else {
        s
    };
    if d.len() > 0 && so_digitos(d) {
        Some(valor_decimal(d))
    } else {
        None
    }
}

/// The value of `s` read as a signed integer by `str::parse`: an optional
/// `'+'` or `'-'`, then at least one ASCII digit and nothing else.
pub open spec fn inteiro_com_sinal(s: Seq<char>) -> Option<int> {
    if s.len() > 0 && s[0] == '-' {
        let d = s.drop_first();
        if d.len() > 0 && so_digitos(d) {
            Some(-(valor_decimal(d) as int))
        } else {
            None
        }
    } else {
        match inteiro_sem_sinal(s) {
            Some(v) => Some(v as int),
            None => None,
        }
    }
}

/// The leading ASCII digits of `s.skip(i)`.
pub open spec fn digitos_desde(s: Seq<char>, i: int) -> Seq<char> {
    s.subrange(i, primeiro(s, i, nao_digito()))
}

pub open spec fn nao_digito() -> spec_fn(char) -> bool {
    |c: char| !eh_digito(c)
}

/// The lines that hold something besides whitespace, each without trailing
/// whitespace (`lines().map(str::trim_end).filter(|l| !l.trim().is_empty())`).
pub open spec fn nao_brancas(ls: Seq<Seq<char>>) -> Seq<Seq<char>>
    decreases ls.len(),
{
    if ls.len() == 0 {
        Seq::empty()
    } else if aparar(aparar_fim(ls[0])).len() > 0 {
        seq![aparar_fim(ls[0])] + nao_brancas(ls.drop_first())
    } else {
        nao_brancas(ls.drop_first())
    }
}

// ---------------------------------------------------------------- more exec

proof fn lemma_valor_decimal_passo(d: Seq<char>, i: int)
    requires
        0 <= i < d.len(),
    ensures
        valor_decimal(d.take(i + 1)) == valor_decimal(d.take(i)) * 10 + valor_digito(d[i]),
{
    assert(d.take(i + 1).drop_last() =~= d.take(i));
}

/// A digit character for `d < 10`.
pub fn digito(d: u64) -> (c: char)
    requires
        d < 10,
    ensures
        c == digito_de(d as nat),
{
    if d == 0 { '0' }
    else if d == 1 { '1' }
    else if d == 2 { '2' }
    else if d == 3 { '3' }
    else if d == 4 { '4' }
    else if d == 5 { '5' }
    else if d == 6 { '6' }
    else if d == 7 { '7' }
    else if d == 8 { '8' }
    else { '9' }
}

/// Appends the decimal representation of `n`.
pub fn escrever_decimal(s: &mut String, n: u64)
    ensures
        final(s)@ == old(s)@ + decimal(n as nat),
    decreases n,
{
    if n < 10 {
        empurrar(s, digito(n));
        assert(old(s)@ + decimal(n as nat) =~= old(s)@.push(digito_de(n as nat)));
    } else {
        escrever_decimal(s, n / 10);
        empurrar(s, digito(n % 10));
        assert(old(s)@ + decimal(n as nat) =~= old(s)@ + decimal((n / 10) as nat) + seq![
            digito_de((n % 10) as nat),
        ]);
    }
}

/// Appends the decimal representation of a signed `n`.
pub fn escrever_decimal_com_sinal(s: &mut String, n: i64)
    ensures
        final(s)@ == old(s)@ + decimal_com_sinal(n as int),
{
    if n < 0 {
        empurrar(s, '-');
        let m: u64 = if n == i64::MIN {
            9223372036854775808u64
        } else {
            (-n) as u64
        };
        escrever_decimal(s, m);
        assert(old(s)@ + decimal_com_sinal(n as int) =~= old(s)@.push('-') + decimal(m as nat));
    } else {
        escrever_decimal(s, n as u64);
    }
}

/// Appends `s` padded with spaces on the right to `w` characters.
pub fn escrever_alinhado_esquerda(out: &mut String, s: &[char], w: usize)
    ensures
        final(out)@ == old(out)@ + alinhar_esquerda(s@, w as nat),
{
    anexar(out, s);
    if s.len() >= w {
        return;
    }
    let ghost meio = out@;
    let mut k: usize = s.len();
    assert(out@ =~= meio + Seq::new((k - s@.len()) as nat, |i: int| ' '));
    while k < w
        invariant
            s@.len() <= k <= w,
            out@ == meio + Seq::new((k - s@.len()) as nat, |i: int| ' '),
        decreases w - k,
    {
        empurrar(out, ' ');
        k = k + 1;
        assert(out@ =~= meio + Seq::new((k - s@.len()) as nat, |i: int| ' '));
    }
    assert(old(out)@ + alinhar_esquerda(s@, w as nat) =~= out@);
}

/// Appends `s` padded with spaces on the left to `w` characters.
pub fn escrever_alinhado_direita(out: &mut String, s: &[char], w: usize)
    ensures
        final(out)@ == old(out)@ + alinhar_direita(s@, w as nat),
{
    if s.len() >= w {
        anexar(out, s);
        return;
    }
    let ghost inicio = out@;
    let mut k: usize = s.len();
    assert(out@ =~= inicio + Seq::new((k - s@.len()) as nat, |i: int| ' '));
    while k < w
        invariant
            s@.len() <= k <= w,
            out@ == inicio + Seq::new((k - s@.len()) as nat, |i: int| ' '),
        decreases w - k,
    {
        empurrar(out, ' ');
        k = k + 1;
        assert(out@ =~= inicio + Seq::new((k - s@.len()) as nat, |i: int| ' '));
    }
    anexar(out, s);
    assert(old(out)@ + alinhar_direita(s@, w as nat) =~= out@);
}

/// The decimal representation of `n`, as characters.
pub fn decimal_de(n: u64) -> (r: Vec<char>)
    ensures
        r@ == decimal(n as nat),
{
    let mut s = String::new();
    escrever_decimal(&mut s, n);
    caracteres(s.as_str())
}

/// Appends `ss` separated by `sep`.
pub fn escrever_juntos(out: &mut String, ss: &[Vec<char>], sep: &str)
    ensures
        final(out)@ == old(out)@ + juntar(vistas(ss@), sep@),
{
    let ghost inicio = out@;
    let mut i: usize = 0;
    while i < ss.len()
        invariant
            i <= ss@.len(),
            out@ == inicio + juntar(vistas(ss@).take(i as int), sep@),
        decreases ss.len() - i,
    {
        let ghost antes = out@;
        if i > 0 {
            out.append(sep);
        }
        anexar(out, ss[i].as_slice());
        proof {
            let t = vistas(ss@).take(i + 1);
            assert(t.drop_last() =~= vistas(ss@).take(i as int));
            assert(t.last() == ss@[i as int]@);
            if i == 0 {
                assert(juntar(vistas(ss@).take(0), sep@) =~= Seq::<char>::empty());
                assert(out@ =~= inicio + juntar(t, sep@));
            } else {
                assert(out@ =~= inicio + juntar(t, sep@));
            }
        }
        i = i + 1;
    }
    assert(vistas(ss@).take(ss@.len() as int) =~= vistas(ss@));
}

/// Whether `a` sorts strictly before `b`.
pub fn precede(a: &[char], b: &[char]) -> (r: bool)
    ensures
        r == lex_menor(a@, b@),
{
    let mut i: usize = 0;
    assert(a@.skip(0) =~= a@);
    assert(b@.skip(0) =~= b@);
    while i < a.len() && i < b.len() && a[i] == b[i]
        invariant
            i <= a@.len(),
            i <= b@.len(),
            a@.take(i as int) == b@.take(i as int),
            lex_menor(a@, b@) == lex_menor(a@.skip(i as int), b@.skip(i as int)),
        decreases a.len() - i,
    {
        proof {
            assert(a@.skip(i as int).drop_first() =~= a@.skip(i + 1));
            assert(b@.skip(i as int).drop_first() =~= b@.skip(i + 1));
            assert(a@.take(i + 1) =~= a@.take(i as int).push(a@[i as int]));
            assert(b@.take(i + 1) =~= b@.take(i as int).push(b@[i as int]));
        }
        i = i + 1;
    }
    assert(a@.skip(i as int).len() == a@.len() - i);
    if i == a.len() {
        i < b.len()
    } else if i == b.len() {
        false
    } else {
        assert(a@.skip(i as int)[0] == a@[i as int]);
        assert(b@.skip(i as int)[0] == b@[i as int]);
        (a[i] as u32) < (b[i] as u32)
    }
}

proof fn lemma_valor_prefixo(d: Seq<char>, i: int)
    requires
        0 <= i <= d.len(),
        so_digitos(d),
    ensures
        valor_decimal(d.take(i)) <= valor_decimal(d),
    decreases d.len() - i,
{
    if i < d.len() {
        lemma_valor_prefixo(d, i + 1);
        lemma_valor_decimal_passo(d, i);
    } else {
        assert(d.take(i) =~= d);
    }
}

/// The value of a run of ASCII digits, when it is at most `limite`.
pub fn valor_ate(d: &[char], limite: u64) -> (r: Option<u64>)
    requires
        so_digitos(d@),
    ensures
        r matches Some(v) ==> v == valor_decimal(d@) && v <= limite,
        r is None ==> valor_decimal(d@) > limite,
{
    let mut v: u128 = 0;
    let mut i: usize = 0;
    while i < d.len()
        invariant
            i <= d@.len(),
            so_digitos(d@),
            v == valor_decimal(d@.take(i as int)),
            v <= limite,
        decreases d.len() - i,
    {
        proof {
            lemma_valor_decimal_passo(d@, i as int);
            assert(eh_digito(d@[i as int]));
        }
        let c = (d[i] as u32 - '0' as u32) as u128;
        assert(v * 10 <= 10 * 0xffff_ffff_ffff_ffffu128) by (nonlinear_arith)
            requires v <= 0xffff_ffff_ffff_ffffu128;
        v = v * 10 + c;
        i = i + 1;
        if v > limite as u128 {
            proof {
                lemma_valor_prefixo(d@, i as int);
            }
            return None;
        }
    }
    assert(d@.take(d@.len() as int) =~= d@);
    Some(v as u64)
}

/// Whether every character is an ASCII digit.
pub fn todos_digitos(d: &[char]) -> (r: bool)
    ensures
        r == so_digitos(d@),
{
    let mut i: usize = 0;
    while i < d.len()
        invariant
            i <= d@.len(),
            forall|k: int| 0 <= k < i ==> eh_digito(#[trigger] d@[k]),
        decreases d.len() - i,
    {
        if !('0' <= d[i] && d[i] <= '9') {
            return false;
        }
        i = i + 1;
    }
    true
}

/// `str::parse::<uN>()` for a type whose largest value is `limite`.
pub fn ler_sem_sinal(s: &[char], limite: u64) -> (r: Option<u64>)
    ensures
        r matches Some(v) ==> inteiro_sem_sinal(s@) == Some(v as nat) && v <= limite,
        r is None ==> (inteiro_sem_sinal(s@) matches Some(v) ==> v > limite),
{
    let d = if s.len() > 0 && s[0] == '+' {
        copiar(s, 1, s.len())
    } else {
        copiar(s, 0, s.len())
    };
    assert(s@.len() > 0 ==> s@.drop_first() =~= s@.subrange(1, s@.len() as int));
    assert(s@ =~= s@.subrange(0, s@.len() as int));
    if d.len() > 0 && todos_digitos(d.as_slice()) {
        valor_ate(d.as_slice(), limite)
    } else {
        None
    }
}

/// The leading ASCII digits of `s.skip(i)`.
pub fn digitos_a_partir(s: &[char], i: usize) -> (r: Vec<char>)
    requires
        i <= s@.len(),
    ensures
        r@ == digitos_desde(s@, i as int),
        so_digitos(r@),
{
    let mut k: usize = i;
    while k < s.len() && '0' <= s[k] && s[k] <= '9'
        invariant
            i <= k <= s@.len(),
            forall|j: int| i <= j < k ==> eh_digito(#[trigger] s@[j]),
        decreases s.len() - k,
    {
        k = k + 1;
    }
    proof {
        lemma_primeiro_e(s@, i as int, k as int, nao_digito());
    }
    copiar(s, i, k)
}

/// The lines that hold something besides whitespace, without trailing whitespace.
pub fn linhas_nao_brancas(s: &[char]) -> (r: Vec<Vec<char>>)
    ensures
        vistas(r@) == nao_brancas(linhas(s@)),
{
    let ls = dividir_linhas(s);
    let ghost lv = vistas(ls@);
    assert(lv.skip(0) =~= lv);
    // Built from the end, so that each step prepends one line.
    let mut rev: Vec<Vec<char>> = Vec::new();
    let mut j: usize = 0;
    while j < ls.len()
        invariant
            j <= ls@.len(),
            lv == vistas(ls@),
            lv == linhas(s@),
            nao_brancas(lv) == vistas(rev@) + nao_brancas(lv.skip(j as int)),
        decreases ls.len() - j,
    {
        let l = sem_espaco_final(ls[j].as_slice());
        let a = sem_espacos(l.as_slice());
        proof {
            assert(lv[j as int] == ls@[j as int]@);
            assert(lv.skip(j as int).drop_first() =~= lv.skip(j + 1));
            assert(lv.skip(j as int)[0] == lv[j as int]);
        }
        let ghost antes = vistas(rev@);
        if a.len() > 0 {
            rev.push(l);
            assert(vistas(rev@) =~= antes + seq![aparar_fim(lv[j as int])]);
        }
        j = j + 1;
    }
    assert(lv.skip(ls@.len() as int) =~= Seq::<Seq<char>>::empty());
    assert(vistas(rev@) =~= nao_brancas(lv));
    rev
}

} // verus!

verus! {

/// First index `k >= i` where `p` occurs in `s`, or `-1`.
pub open spec fn ocorrencia_desde(s: Seq<char>, p: Seq<char>, i: int) -> int
    decreases s.len() + 1 - i,
{
    if i < 0 || i > s.len() {
        -1
    } else if ocorre_em(s, p, i) {
        i
    } else {
        ocorrencia_desde(s, p, i + 1)
    }
}

pub proof fn lemma_ocorrencia(s: Seq<char>, p: Seq<char>, i: int, r: int)
    requires
        0 <= i,
        r == -1 || i <= r,
        forall|j: int| i <= j && (r == -1 || j < r) ==> !ocorre_em(s, p, j),
        r != -1 ==> ocorre_em(s, p, r),
    ensures
        ocorrencia_desde(s, p, i) == r,
    decreases s.len() + 1 - i,
{
    if i <= s.len() && !ocorre_em(s, p, i) {
        lemma_ocorrencia(s, p, i + 1, r);
    } else if i > s.len() {
        if r != -1 {
            assert(ocorre_em(s, p, r));
        }
    }
}

/// `s` with its first occurrence of `p` removed (`replacen(p, "", 1)`).
pub open spec fn sem_primeira(s: Seq<char>, p: Seq<char>) -> Seq<char> {
    let k = ocorrencia_desde(s, p, 0);
    if k >= 0 {
        s.take(k) + s.skip(k + p.len())
    } else {
        s
    }
}

/// Every occurrence of `p` (non-empty) from `i` on replaced by `r`, left to
/// right (`str::replace`).
pub open spec fn substituir_desde(s: Seq<char>, p: Seq<char>, r: Seq<char>, i: int) -> Seq<char>
    decreases s.len() + 1 - i,
{
    if i < 0 || i > s.len() || p.len() == 0 {
        Seq::empty()
    } else {
        let k = ocorrencia_desde(s, p, i);
        if k < 0 {
            s.skip(i)
        } else {
            proof {
                lemma_ocorrencia_posicao(s, p, i);
            }
            s.subrange(i, k) + r + substituir_desde(s, p, r, k + p.len())
        }
    }
}

pub proof fn lemma_ocorrencia_posicao(s: Seq<char>, p: Seq<char>, i: int)
    requires
        0 <= i,
    ensures
        ocorrencia_desde(s, p, i) == -1 || (i <= ocorrencia_desde(s, p, i) && ocorre_em(
            s,
            p,
            ocorrencia_desde(s, p, i),
        )),
    decreases s.len() + 1 - i,
{
    if i <= s.len() && !ocorre_em(s, p, i) {
        lemma_ocorrencia_posicao(s, p, i + 1);
    }
}

/// The first line of a text (`lines().next().unwrap_or("")`).
pub open spec fn primeira_linha(s: Seq<char>) -> Seq<char> {
    if linhas(s).len() > 0 {
        linhas(s)[0]
    } else {
        Seq::empty()
    }
}

/// The first line of a text.
pub fn linha_inicial(s: &[char]) -> (r: Vec<char>)
    ensures
        r@ == primeira_linha(s@),
{
    let ls = dividir_linhas(s);
    if ls.len() > 0 {
        let l = copiar(ls[0].as_slice(), 0, ls[0].len());
        assert(l@ =~= ls@[0]@);
        assert(vistas(ls@)[0] == ls@[0]@);
        l
    } else {
        Vec::new()
    }
}

/// First index at or after `i` where `p` occurs in `s`.
pub fn ocorrencia(s: &[char], p: &[char], i: usize) -> (r: Option<usize>)
    requires
        i <= s@.len(),
    ensures
        match r {
            Some(k) => ocorrencia_desde(s@, p@, i as int) == k,
            None => ocorrencia_desde(s@, p@, i as int) == -1,
        },
{
    let r = procurar(s, p, i);
    proof {
        match r {
            Some(k) => lemma_ocorrencia(s@, p@, i as int, k as int),
            None => lemma_ocorrencia(s@, p@, i as int, -1),
        }
    }
    r
}

} // verus!
