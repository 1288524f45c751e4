//! The text an oracle's output is kept as in the cache, and its reading:
//! `codigo\nlen_stdout\n<stdout><stderr>`, with the length of stdout in
//! UTF-8 bytes. Reading and writing the files is the application's part.
use vstd::prelude::*;

use crate::processo::Saida;
use crate::texto::{
    caracteres, copiar, decimal, decimal_com_sinal, eh_quebra, escrever_decimal,
    escrever_decimal_com_sinal, inteiro_com_sinal, inteiro_sem_sinal, lemma_primeiro,
    lemma_primeiro_e, primeiro, so_digitos, texto_de, valor_decimal, valor_digito, digito_de,
    eh_digito, ler_sem_sinal,
};
use vstd::utf8::{encode_utf8, encode_scalar};

verus! {

/// How many UTF-8 bytes a text takes.
pub open spec fn bytes(s: Seq<char>) -> nat {
    encode_utf8(s).len()
}

/// The text an output is kept as.
pub open spec fn texto_em_cache(s: Saida) -> Seq<char> {
    decimal_com_sinal(s.codigo as int) + "\n"@ + decimal(bytes(s.stdout@)) + "\n"@ + s.stdout@
        + s.stderr@
}

/// The first `k` characters of `corpo`, from `k` on, that take exactly `n`
/// bytes, if some prefix does.
pub open spec fn corte(corpo: Seq<char>, n: nat, k: int) -> Option<int>
    decreases corpo.len() - k,
{
    if k < 0 || k > corpo.len() {
        None
    } else if bytes(corpo.take(k)) == n {
        Some(k)
    } else if bytes(corpo.take(k)) > n || k == corpo.len() {
        None
    } else {
        corte(corpo, n, k + 1)
    }
}

/// The output read from its text in the cache: exit code, stdout, stderr.
pub open spec fn lido_do_cache(t: Seq<char>) -> Option<(i32, Seq<char>, Seq<char>)> {
    let i = primeiro(t, 0, eh_quebra());
    let resto = t.skip((i + 1) as int);
    let j = primeiro(resto, 0, eh_quebra());
    let corpo = resto.skip((j + 1) as int);
    if i >= t.len() || j >= resto.len() {
        None
    } else {
        match (inteiro_com_sinal(t.take(i)), inteiro_sem_sinal(resto.take(j))) {
            (Some(c), Some(n)) => if i32::MIN <= c <= i32::MAX && n <= usize::MAX {
                match corte(corpo, n, 0) {
                    Some(k) => Some((c as i32, corpo.take(k), corpo.skip(k))),
                    None => None,
                }
            } else {
                None
            },
            _ => None,
        }
    }
}

/// `encode_utf8` of a concatenation.
pub proof fn lemma_bytes_concat(a: Seq<char>, b: Seq<char>)
    ensures
        encode_utf8(a + b) == encode_utf8(a) + encode_utf8(b),
    decreases a.len(),
{
    if a.len() > 0 {
        lemma_bytes_concat(a.drop_first(), b);
        assert((a + b).drop_first() =~= a.drop_first() + b);
        assert((a + b)[0] == a[0]);
    } else {
        assert(a + b =~= b);
    }
}

/// The UTF-8 width of one character, from 1 to 4.
pub open spec fn largura(c: char) -> nat {
    encode_scalar(c as u32).len()
}

pub proof fn lemma_largura(c: char)
    ensures
        1 <= largura(c) <= 4,
        (c as u32) <= 0x7F ==> largura(c) == 1,
        0x80 <= (c as u32) <= 0x7FF ==> largura(c) == 2,
        0x800 <= (c as u32) <= 0xFFFF ==> largura(c) == 3,
        0x10000 <= (c as u32) ==> largura(c) == 4,
{
    vstd::utf8::char_is_scalar(c);
}

/// The bytes of one more character.
pub proof fn lemma_bytes_passo(s: Seq<char>, k: int)
    requires
        0 <= k < s.len(),
    ensures
        bytes(s.take(k + 1)) == bytes(s.take(k)) + largura(s[k]),
{
    let um = seq![s[k]];
    lemma_bytes_concat(s.take(k), um);
    assert(s.take(k + 1) =~= s.take(k) + um);
    assert(um.drop_first() =~= Seq::<char>::empty());
    assert(encode_utf8(um.drop_first()).len() == 0);
    assert(encode_utf8(um).len() == encode_scalar(um[0] as u32).len());
}

/// The UTF-8 width of a character.
fn largura_de(c: char) -> (r: usize)
    ensures
        r == largura(c),
{
    proof {
        lemma_largura(c);
    }
    let v = c as u32;
    if v <= 0x7F {
        1
    } else if v <= 0x7FF {
        2
    } else if v <= 0xFFFF {
        3
    } else {
        4
    }
}

/// Whether an output is kept in the cache: failures of the harness itself
/// (a missing tool, a time out), which carry a negative code, are not.
pub fn entra_no_cache(s: &Saida) -> (r: bool)
    ensures
        r == (s.codigo >= 0),
{
    s.codigo >= 0
}

/// Whether an output is written to the cache: when the cache is in use and
/// the output is not a failure of the harness itself.
pub fn grava_no_cache(usar_cache: bool, s: &Saida) -> (r: bool)
    ensures
        r == (usar_cache && s.codigo >= 0),
{
    usar_cache && entra_no_cache(s)
}

/// The text an output is kept as in the cache.
pub fn texto_para_cache(s: &Saida) -> (r: String)
    requires
        bytes(s.stdout@) <= usize::MAX,
    ensures
        r@ == texto_em_cache(*s),
{
    let mut r = String::new();
    escrever_decimal_com_sinal(&mut r, s.codigo as i64);
    r.append("\n");
    escrever_decimal(&mut r, s.stdout.as_str().len() as u64);
    r.append("\n");
    r.append(s.stdout.as_str());
    r.append(s.stderr.as_str());
    r
}

/// Reads an output back from its text in the cache.
pub fn ler_do_cache(texto: &str) -> (r: Option<Saida>)
    ensures
        match r {
            Some(s) => lido_do_cache(texto@) == Some((s.codigo, s.stdout@, s.stderr@)),
            None => lido_do_cache(texto@) is None,
        },
{
    let t = caracteres(texto);
    let ghost tt = texto@;
    let mut i: usize = 0;
    while i < t.len() && t[i] != '\n'
        invariant
            i <= t@.len(),
            forall|k: int| 0 <= k < i ==> t@[k] != '\n',
        decreases t.len() - i,
    {
        i = i + 1;
    }
    proof {
        lemma_primeiro_e(t@, 0, i as int, eh_quebra());
    }
    if i == t.len() {
        return None;
    }
    let resto = copiar(t.as_slice(), i + 1, t.len());
    assert(resto@ =~= tt.skip((i + 1) as int));
    let mut j: usize = 0;
    while j < resto.len() && resto[j] != '\n'
        invariant
            j <= resto@.len(),
            forall|k: int| 0 <= k < j ==> resto@[k] != '\n',
        decreases resto.len() - j,
    {
        j = j + 1;
    }
    proof {
        lemma_primeiro_e(resto@, 0, j as int, eh_quebra());
    }
    if j == resto.len() {
        return None;
    }
    let corpo = copiar(resto.as_slice(), j + 1, resto.len());
    assert(corpo@ =~= resto@.skip((j + 1) as int));
    let cod_txt = copiar(t.as_slice(), 0, i);
    assert(cod_txt@ =~= tt.take(i as int));
    let len_txt = copiar(resto.as_slice(), 0, j);
    assert(len_txt@ =~= resto@.take(j as int));
    let codigo = match ler_com_sinal_i32(cod_txt.as_slice()) {
        Some(c) => c,
        None => {
            assert(lido_do_cache(tt) is None);
            return None;
        },
    };
    let n = match ler_sem_sinal(len_txt.as_slice(), usize::MAX as u64) {
        Some(n) => n as usize,
        None => {
            assert(lido_do_cache(tt) is None);
            return None;
        },
    };
    proof {
        lemma_lido_por_corte(tt, i as int, j as int, codigo as int, n as nat);
        assert(corpo@ =~= tt.skip(i + 1).skip(j + 1));
    }
    let mut k: usize = 0;
    let mut acumulado: usize = 0;
    assert(corpo@.take(0) =~= Seq::<char>::empty());
    loop
        invariant
            k <= corpo@.len(),
            acumulado == bytes(corpo@.take(k as int)),
            acumulado <= n,
            corte(corpo@, n as nat, 0) == corte(corpo@, n as nat, k as int),
            corte(corpo@, n as nat, 0) is None ==> lido_do_cache(tt) is None,
            tt == texto@,
        ensures
            k <= corpo@.len(),
            acumulado == bytes(corpo@.take(k as int)),
            acumulado == n,
            corte(corpo@, n as nat, 0) == corte(corpo@, n as nat, k as int),
        decreases corpo@.len() - k,
    {
        if acumulado == n {
            break;
        }
        if k == corpo.len() {
            assert(corte(corpo@, n as nat, k as int) is None);
            return None;
        }
        let w = largura_de(corpo[k]);
        proof {
            lemma_bytes_passo(corpo@, k as int);
        }
        if w > n - acumulado {
            proof {
                lemma_corte_passou(corpo@, n as nat, k + 1);
            }
            assert(corte(corpo@, n as nat, k as int) is None);
            return None;
        }
        acumulado = acumulado + w;
        k = k + 1;
    }
    assert(corte(corpo@, n as nat, k as int) == Some(k as int));
    let so = copiar(corpo.as_slice(), 0, k);
    let se = copiar(corpo.as_slice(), k, corpo.len());
    assert(so@ =~= corpo@.take(k as int));
    assert(se@ =~= corpo@.skip(k as int));
    let r = Saida { stdout: texto_de(so.as_slice()), stderr: texto_de(se.as_slice()), codigo };
    assert(lido_do_cache(tt) == Some((r.codigo, r.stdout@, r.stderr@)));
    Some(r)
}

/// What the text in the cache reads as, once its two first lines are known.
proof fn lemma_lido_por_corte(t: Seq<char>, i: int, j: int, c: int, n: nat)
    requires
        0 <= i < t.len(),
        i == primeiro(t, 0, eh_quebra()),
        0 <= j < t.skip(i + 1).len(),
        j == primeiro(t.skip(i + 1), 0, eh_quebra()),
        inteiro_com_sinal(t.take(i)) == Some(c),
        i32::MIN <= c <= i32::MAX,
        inteiro_sem_sinal(t.skip(i + 1).take(j)) == Some(n),
        n <= usize::MAX,
    ensures
        lido_do_cache(t) == match corte(t.skip(i + 1).skip(j + 1), n, 0) {
            Some(k) => Some(
                (
                    c as i32,
                    t.skip(i + 1).skip(j + 1).take(k),
                    t.skip(i + 1).skip(j + 1).skip(k),
                ),
            ),
            None => None,
        },
{
}

/// Once a prefix takes more than `n` bytes, no longer one takes `n`.
proof fn lemma_corte_passou(corpo: Seq<char>, n: nat, k: int)
    requires
        0 <= k <= corpo.len(),
        bytes(corpo.take(k)) > n,
    ensures
        corte(corpo, n, k) is None,
    decreases corpo.len() - k,
{
    if k < corpo.len() {
        lemma_bytes_passo(corpo, k);
        lemma_corte_passou(corpo, n, k + 1);
    }
}

/// `str::parse::<i32>()`.
fn ler_com_sinal_i32(s: &[char]) -> (r: Option<i32>)
    ensures
        match r {
            Some(v) => inteiro_com_sinal(s@) == Some(v as int),
            None => match inteiro_com_sinal(s@) {
                Some(v) => v < i32::MIN || v > i32::MAX,
                None => true,
            },
        },
{
    if s.len() > 0 && s[0] == '-' {
        let d = copiar(s, 1, s.len());
        assert(d@ =~= s@.drop_first());
        if d.len() == 0 || !crate::texto::todos_digitos(d.as_slice()) {
            return None;
        }
        match crate::texto::valor_ate(d.as_slice(), 2147483648u64) {
            Some(v) => Some((-(v as i64)) as i32),
            None => None,
        }
    } else {
        match ler_sem_sinal(s, 2147483647u64) {
            Some(v) => Some(v as i32),
            None => None,
        }
    }
}

// ---------------------------------------------------------------- the law

pub proof fn lemma_valor_digito(d: nat)
    requires
        d < 10,
    ensures
        valor_digito(digito_de(d)) == d,
        eh_digito(digito_de(d)),
{
}

/// The decimal representation of `n` reads back as `n`.
pub proof fn lemma_decimal(n: nat)
    ensures
        so_digitos(decimal(n)),
        decimal(n).len() > 0,
        valor_decimal(decimal(n)) == n,
    decreases n,
{
    if n < 10 {
        lemma_valor_digito(n);
        assert(decimal(n).drop_last() =~= Seq::<char>::empty());
        assert(valor_decimal(Seq::<char>::empty()) == 0);
        assert(decimal(n).last() == digito_de(n));
    } else {
        lemma_decimal(n / 10);
        lemma_valor_digito(n % 10);
        assert(decimal(n).drop_last() =~= decimal(n / 10));
        assert(decimal(n).last() == digito_de(n % 10));
        assert(valor_decimal(decimal(n)) == valor_decimal(decimal(n / 10)) * 10 + valor_digito(
            digito_de(n % 10),
        ));
        assert(n == (n / 10) * 10 + n % 10);
    }
}

/// The signed decimal representation reads back as the number.
pub proof fn lemma_decimal_com_sinal(c: int)
    ensures
        inteiro_com_sinal(decimal_com_sinal(c)) == Some(c),
        forall|k: int|
            0 <= k < decimal_com_sinal(c).len() ==> #[trigger] decimal_com_sinal(c)[k] != '\n',
{
    if c < 0 {
        lemma_decimal((-c) as nat);
        let d = decimal((-c) as nat);
        assert((seq!['-'] + d).drop_first() =~= d);
        assert forall|k: int| 0 <= k < (seq!['-'] + d).len() implies #[trigger] (seq!['-'] + d)[k] != '\n' by {
            if k > 0 {
                assert((seq!['-'] + d)[k] == d[k - 1]);
                assert(eh_digito(d[k - 1]));
            }
        }
    } else {
        lemma_decimal(c as nat);
        let d = decimal(c as nat);
        assert(eh_digito(d[0]));
        assert forall|k: int| 0 <= k < d.len() implies #[trigger] d[k] != '\n' by {
            assert(eh_digito(d[k]));
        }
    }
}

proof fn lemma_corte_exato(corpo: Seq<char>, a: Seq<char>, k: int)
    requires
        0 <= k <= a.len(),
        a.is_prefix_of(corpo),
    ensures
        corte(corpo, bytes(a), k) == Some(a.len() as int),
    decreases a.len() - k,
{
    if k < a.len() {
        assert(corpo.take(k) =~= a.take(k));
        assert(corpo.take(a.len() as int) =~= a);
        lemma_bytes_cresce(a, k);
        lemma_corte_exato(corpo, a, k + 1);
    } else {
        assert(corpo.take(k) =~= a);
    }
}

/// A proper prefix takes fewer bytes.
proof fn lemma_bytes_cresce(a: Seq<char>, k: int)
    requires
        0 <= k < a.len(),
    ensures
        bytes(a.take(k)) < bytes(a),
    decreases a.len() - k,
{
    lemma_bytes_passo(a, k);
    lemma_largura(a[k]);
    if k + 1 < a.len() {
        lemma_bytes_cresce(a, k + 1);
    } else {
        assert(a.take(k + 1) =~= a);
    }
}

/// What the cache keeps of an output reads back as that output.
pub proof fn cache_devolve_o_que_guardou(s: Saida)
    requires
        bytes(s.stdout@) <= usize::MAX,
    ensures
        lido_do_cache(texto_em_cache(s)) == Some((s.codigo, s.stdout@, s.stderr@)),
{
    let c = decimal_com_sinal(s.codigo as int);
    let n = decimal(bytes(s.stdout@));
    let corpo = s.stdout@ + s.stderr@;
    let t = texto_em_cache(s);
    let resto = n + seq!['\n'] + corpo;
    lemma_decimal_com_sinal(s.codigo as int);
    lemma_decimal(bytes(s.stdout@));
    assert(t =~= c + seq!['\n'] + resto) by {
        reveal_strlit("\n");
    }
    assert(primeiro(t, 0, eh_quebra()) == c.len()) by {
        lemma_primeiro_e(t, 0, c.len() as int, eh_quebra());
    }
    assert(t.skip((c.len() + 1) as int) =~= resto);
    assert(t.take(c.len() as int) =~= c);
    assert(primeiro(resto, 0, eh_quebra()) == n.len()) by {
        assert forall|k: int| 0 <= k < n.len() implies !eh_quebra()(#[trigger] resto[k]) by {
            assert(eh_digito(n[k]));
        }
        lemma_primeiro_e(resto, 0, n.len() as int, eh_quebra());
    }
    assert(resto.take(n.len() as int) =~= n);
    assert(resto.skip((n.len() + 1) as int) =~= corpo);
    assert(inteiro_sem_sinal(n) == Some(bytes(s.stdout@))) by {
        assert(eh_digito(n[0]));
    }
    lemma_lido_por_corte(t, c.len() as int, n.len() as int, s.codigo as int, bytes(s.stdout@));
    assert(corpo.take(s.stdout@.len() as int) =~= s.stdout@);
    assert(corpo.skip(s.stdout@.len() as int) =~= s.stderr@);
    lemma_corte_exato(corpo, s.stdout@, 0);
}

} // verus!
