//! Byte-for-byte comparison of outputs and the textual report.
use vstd::prelude::*;

use crate::corpus::Programa;
use crate::processo::{primeira_nao_branca, Saida};
use crate::texto::{
    aparar, alinhar_direita, alinhar_esquerda, caracteres, comeca_com, comeca_str, contem,
    contem_str, copiar, decimal, decimal_com_sinal, dividir_linhas, dividir_pedacos, eh_digito,
    eh_hex, escrever_alinhado_direita, escrever_alinhado_esquerda, escrever_decimal,
    escrever_decimal_com_sinal, escrever_juntos, iguais, juntar, lemma_primeiro,
    lemma_primeiro_e, linhas, so_digitos, lemma_lex_transitiva, lemma_lex_assimetrica, linhas_nao_brancas, nao_brancas, nao_digito, pedacos, primeiro,
    texto_de, vistas, anexar,
};

verus! {

/// The result of one program on the executors. `forge` is `None` when
/// DartForge was not run.
#[derive(Debug, Clone)]
pub struct Resultado {
    pub programa: Programa,
    pub dart: Saida,
    pub ddc: Saida,
    pub forge: Option<Saida>,
    pub nativo: bool,
    pub producao: Option<Saida>,
}

/// Where two outputs diverge.
#[derive(Debug, Clone, Copy, PartialEq, Eq, Structural)]
pub enum Divergencia {
    /// Identical stdout, different exit code.
    Codigo,
    /// First line (1-based) of stdout that differs (or exists on one side only).
    Linha(usize),
}

// ---------------------------------------------------------------- comparison

/// 1 + how many pieces the two lists share from the start.
pub open spec fn linha_diferente(a: Seq<Seq<char>>, b: Seq<Seq<char>>) -> nat
    decreases a.len(),
{
    if a.len() > 0 && b.len() > 0 && a[0] == b[0] {
        1 + linha_diferente(a.drop_first(), b.drop_first())
    } else {
        1
    }
}

/// A line number as `usize` (saturating at `usize::MAX`).
pub open spec fn como_usize(n: nat) -> usize {
    if n > usize::MAX {
        usize::MAX
    } else {
        n as usize
    }
}

/// The divergence between an expected and an obtained output.
pub open spec fn comparacao(esperado: Saida, obtido: Saida) -> Option<Divergencia> {
    if esperado.stdout@ != obtido.stdout@ {
        Some(
            Divergencia::Linha(
                como_usize(linha_diferente(pedacos(esperado.stdout@), pedacos(obtido.stdout@))),
            ),
        )
    } else if esperado.codigo != obtido.codigo {
        Some(Divergencia::Codigo)
    } else {
        None
    }
}

/// First line (1-based) where the two texts differ, counting lines with
/// their `'\n'`.
pub fn primeira_linha_diferente(a: &str, b: &str) -> (n: usize)
    ensures
        n == como_usize(linha_diferente(pedacos(a@), pedacos(b@))),
{
    let ca = caracteres(a);
    let cb = caracteres(b);
    let pa = dividir_pedacos(ca.as_slice());
    let pb = dividir_pedacos(cb.as_slice());
    let ghost va = vistas(pa@);
    let ghost vb = vistas(pb@);
    let mut i: usize = 0;
    assert(va.skip(0) =~= va);
    assert(vb.skip(0) =~= vb);
    while i < pa.len() && i < pb.len() && iguais(pa[i].as_slice(), pb[i].as_slice())
        invariant
            i <= pa@.len(),
            i <= pb@.len(),
            va == vistas(pa@),
            vb == vistas(pb@),
            linha_diferente(va, vb) == i + linha_diferente(va.skip(i as int), vb.skip(i as int)),
        decreases pa.len() - i,
    {
        proof {
            assert(va.skip(i as int)[0] == pa@[i as int]@);
            assert(vb.skip(i as int)[0] == pb@[i as int]@);
            assert(va.skip(i as int).drop_first() =~= va.skip(i + 1));
            assert(vb.skip(i as int).drop_first() =~= vb.skip(i + 1));
        }
        i = i + 1;
    }
    proof {
        if i < pa@.len() && i < pb@.len() {
            assert(va.skip(i as int)[0] == pa@[i as int]@);
            assert(vb.skip(i as int)[0] == pb@[i as int]@);
        }
    }
    if i == usize::MAX {
        usize::MAX
    } else {
        i + 1
    }
}

/// Where two texts first differ line by line: the line number (1-based) and
/// that line of each text, `None` for a text that has ended.
pub open spec fn diferenca(a: Seq<char>, b: Seq<char>) -> (nat, Option<Seq<char>>, Option<Seq<char>>) {
    let la = linhas(a);
    let lb = linhas(b);
    let k = linha_diferente(la, lb) - 1;
    (
        linha_diferente(la, lb),
        if k < la.len() { Some(la[k]) } else { None },
        if k < lb.len() { Some(lb[k]) } else { None },
    )
}

/// The first line where two texts differ (`lines()`), with the line of each.
pub fn primeira_diferenca(a: &str, b: &str) -> (r: (usize, Option<String>, Option<String>))
    ensures
        r.0 == como_usize(diferenca(a@, b@).0),
        opcao_vista(r.1) == diferenca(a@, b@).1,
        opcao_vista(r.2) == diferenca(a@, b@).2,
{
    let ca = caracteres(a);
    let cb = caracteres(b);
    let pa = dividir_linhas(ca.as_slice());
    let pb = dividir_linhas(cb.as_slice());
    let ghost va = vistas(pa@);
    let ghost vb = vistas(pb@);
    let mut i: usize = 0;
    assert(va.skip(0) =~= va);
    assert(vb.skip(0) =~= vb);
    while i < pa.len() && i < pb.len() && iguais(pa[i].as_slice(), pb[i].as_slice())
        invariant
            i <= pa@.len(),
            i <= pb@.len(),
            va == vistas(pa@),
            vb == vistas(pb@),
            linha_diferente(va, vb) == i + linha_diferente(va.skip(i as int), vb.skip(i as int)),
        decreases pa.len() - i,
    {
        proof {
            assert(va.skip(i as int)[0] == pa@[i as int]@);
            assert(vb.skip(i as int)[0] == pb@[i as int]@);
            assert(va.skip(i as int).drop_first() =~= va.skip(i + 1));
            assert(vb.skip(i as int).drop_first() =~= vb.skip(i + 1));
        }
        i = i + 1;
    }
    proof {
        if i < pa@.len() && i < pb@.len() {
            assert(va.skip(i as int)[0] == pa@[i as int]@);
            assert(vb.skip(i as int)[0] == pb@[i as int]@);
        }
    }
    let x = if i < pa.len() { Some(texto_de(pa[i].as_slice())) } else { None };
    let y = if i < pb.len() { Some(texto_de(pb[i].as_slice())) } else { None };
    let n = if i == usize::MAX { usize::MAX } else { i + 1 };
    (n, x, y)
}

/// The text in an optional string.
pub open spec fn opcao_vista(o: Option<String>) -> Option<Seq<char>> {
    match o {
        Some(s) => Some(s@),
        None => None,
    }
}

/// `None` when stdout and exit code are identical.
pub fn comparar(esperado: &Saida, obtido: &Saida) -> (r: Option<Divergencia>)
    ensures
        r == comparacao(*esperado, *obtido),
{
    if esperado.stdout != obtido.stdout {
        return Some(
            Divergencia::Linha(
                primeira_linha_diferente(esperado.stdout.as_str(), obtido.stdout.as_str()),
            ),
        );
    }
    if esperado.codigo != obtido.codigo {
        return Some(Divergencia::Codigo);
    }
    None
}

/// Two outputs never diverge from themselves.
pub proof fn comparacao_reflexiva(s: Saida)
    ensures
        comparacao(s, s) is None,
{
}

/// Outputs diverge exactly when their stdout or their exit code differ.
pub proof fn comparacao_detecta(esperado: Saida, obtido: Saida)
    ensures
        comparacao(esperado, obtido) is None <==> (esperado.stdout@ == obtido.stdout@
            && esperado.codigo == obtido.codigo),
        comparacao(esperado, obtido) matches Some(Divergencia::Linha(n)) ==> n >= 1,
{
}

/// `linha_diferente` is 1 + the count of the leading pieces that the two
/// lists share, whichever list comes first.
proof fn lemma_linha_diferente(a: Seq<Seq<char>>, b: Seq<Seq<char>>)
    ensures
        linha_diferente(a, b) >= 1,
        linha_diferente(a, b) == linha_diferente(b, a),
        linha_diferente(a, b) - 1 <= a.len(),
        linha_diferente(a, b) - 1 <= b.len(),
        forall|k: int| 0 <= k < linha_diferente(a, b) - 1 ==> #[trigger] a[k] == b[k],
        linha_diferente(a, b) - 1 < a.len() && linha_diferente(a, b) - 1 < b.len() ==> a[
            linha_diferente(a, b) - 1
        ] != b[linha_diferente(a, b) - 1],
    decreases a.len(),
{
    if a.len() > 0 && b.len() > 0 && a[0] == b[0] {
        lemma_linha_diferente(a.drop_first(), b.drop_first());
        assert forall|k: int| 0 <= k < linha_diferente(a, b) - 1 implies #[trigger] a[k] == b[k] by {
            if k > 0 {
                assert(a.drop_first()[k - 1] == b.drop_first()[k - 1]);
            }
        }
    }
}

/// What `comparar` says, in one place: nothing exactly when stdout and exit
/// code are equal (stderr does not count); the exit code when only it
/// differs; otherwise the first line (from 1) at which the stdouts, cut after
/// each `'\n'`, stop agreeing. And it does not matter which output comes
/// first.
pub proof fn comparacao_caracterizada(e: Saida, o: Saida)
    ensures
        comparacao(e, o) is None <==> (e.stdout@ == o.stdout@ && e.codigo == o.codigo),
        comparacao(e, o) == Some(Divergencia::Codigo) <==> (e.stdout@ == o.stdout@ && e.codigo
            != o.codigo),
        comparacao(e, o) is Some && comparacao(e, o) != Some(Divergencia::Codigo) <==> e.stdout@
            != o.stdout@,
        comparacao(e, o) == comparacao(o, e),
        comparacao(e, o) matches Some(Divergencia::Linha(n)) ==> n >= 1 && (n < usize::MAX ==> ({
            let pe = pedacos(e.stdout@);
            let po = pedacos(o.stdout@);
            &&& n - 1 <= pe.len()
            &&& n - 1 <= po.len()
            &&& forall|k: int| 0 <= k < n - 1 ==> #[trigger] pe[k] == po[k]
            &&& (n - 1 < pe.len() && n - 1 < po.len() ==> pe[n - 1] != po[n - 1])
        })),
{
    lemma_linha_diferente(pedacos(e.stdout@), pedacos(o.stdout@));
}

// ---------------------------------------------------------------- results

/// The reference output for DartForge (the VM, or the DDC when the header
/// declares a divergence and the run is not native).
pub open spec fn referencia_de(r: Resultado) -> Saida {
    if !r.nativo && r.programa.diverge_ddc is Some {
        r.ddc
    } else {
        r.dart
    }
}

/// Divergence of DartForge from the reference; `None` also when DartForge
/// did not run.
pub open spec fn forge_diverge(r: Resultado) -> Option<Divergencia> {
    match r.forge {
        Some(f) => comparacao(referencia_de(r), f),
        None => None,
    }
}

impl Resultado {
    /// The reference output of DartForge.
    pub fn referencia(&self) -> (r: &Saida)
        ensures
            *r == referencia_de(*self),
    {
        if !self.nativo && self.programa.referencia_e_ddc() {
            &self.ddc
        } else {
            &self.dart
        }
    }

    /// Divergence DDC × VM (it matters only when the header does not declare it).
    pub fn ddc_vs_dart(&self) -> (r: Option<Divergencia>)
        ensures
            r == comparacao(self.dart, self.ddc),
    {
        comparar(&self.dart, &self.ddc)
    }

    /// Divergence DartForge × reference.
    pub fn forge_vs_referencia(&self) -> (r: Option<Divergencia>)
        ensures
            r == forge_diverge(*self),
    {
        match &self.forge {
            Some(f) => comparar(self.referencia(), f),
            None => None,
        }
    }

    /// `true` when DartForge reproduces the reference.
    pub fn ok(&self) -> (r: bool)
        ensures
            r == (self.forge is Some && forge_diverge(*self) is None),
    {
        self.forge.is_some() && self.forge_vs_referencia().is_none()
    }
}

// ---------------------------------------------------------------- failure keys

pub open spec fn nao_hex() -> spec_fn(char) -> bool {
    |c: char| !eh_hex(c)
}

pub open spec fn eh_aspa() -> spec_fn(char) -> bool {
    |c: char| c == '\''
}

/// Where the name of a thread starting at `i` (`thread '<name>'`) ends: the
/// first quote after `thread '`.
pub open spec fn fim_do_nome(s: Seq<char>, i: int) -> int {
    primeiro(s, i + 8, eh_aspa())
}

/// Where the digits after `thread '<name>' (` end.
pub open spec fn fim_do_numero(s: Seq<char>, i: int) -> int {
    primeiro(s, fim_do_nome(s, i) + 3, nao_digito())
}

/// At `i` stands `thread '<name>' (<digits>)`: a thread with its number.
pub open spec fn numero_de_thread(s: Seq<char>, i: int) -> bool {
    let k = fim_do_nome(s, i);
    let f = fim_do_numero(s, i);
    &&& comeca_com(s.skip(i), "thread '"@)
    &&& k + 2 < s.len()
    &&& s[k + 1] == ' '
    &&& s[k + 2] == '('
    &&& k + 3 < f < s.len()
    &&& s[f] == ')'
}

/// `s.skip(i)` with what changes from run to run normalised: the number in
/// parentheses right after `thread '<name>' `, and the hash in
/// `runtime_<hex>`. The rest of the line stays as it is, because it is what
/// identifies the defect.
pub open spec fn estabilizar_desde(s: Seq<char>, i: int) -> Seq<char>
    decreases s.len() - i,
{
    if i < 0 || i >= s.len() {
        Seq::empty()
    } else if comeca_com(s.skip(i), "runtime_"@) && primeiro(s, i + 8, nao_hex()) > i + 8 {
        proof {
            lemma_primeiro(s, i + 8, nao_hex());
        }
        "runtime_<hash>"@ + estabilizar_desde(s, primeiro(s, i + 8, nao_hex()))
    } else if numero_de_thread(s, i) {
        proof {
            lemma_primeiro(s, i + 8, eh_aspa());
        }
        s.subrange(i, fim_do_nome(s, i) + 2) + "(N)"@ + estabilizar_desde(s, fim_do_numero(s, i) + 1)
    } else {
        seq![s[i]] + estabilizar_desde(s, i + 1)
    }
}

/// Takes out of a grouping key what changes from run to run (the number of
/// a thread, `thread '<unnamed>' (11220)`, and the hash in the name of the
/// runtime's cache file), keeping the rest of the line, which identifies the
/// defect.
pub fn estabilizar_chave(linha: &str) -> (r: String)
    ensures
        r@ == estabilizar_desde(linha@, 0),
{
    let s = caracteres(linha);
    estabilizar(s.as_slice())
}

fn estabilizar(s: &[char]) -> (r: String)
    ensures
        r@ == estabilizar_desde(s@, 0),
{
    let mut saida = String::new();
    let mut i: usize = 0;
    while i < s.len()
        invariant
            i <= s@.len(),
            saida@ + estabilizar_desde(s@, i as int) == estabilizar_desde(s@, 0),
        decreases s.len() - i,
    {
        proof {
            reveal_strlit("runtime_");
            reveal_strlit("runtime_<hash>");
            reveal_strlit("thread '");
            reveal_strlit("(N)");
        }
        let ghost antes = saida@;
        let resto = copiar(s, i, s.len());
        assert(resto@ =~= s@.skip(i as int));
        if comeca_str(resto.as_slice(), "runtime_") {
            let mut k: usize = i + 8;
            while k < s.len() && (('0' <= s[k] && s[k] <= '9') || ('a' <= s[k] && s[k] <= 'f') || (
            'A' <= s[k] && s[k] <= 'F'))
                invariant
                    i + 8 <= k <= s@.len(),
                    forall|j: int| i + 8 <= j < k ==> eh_hex(#[trigger] s@[j]),
                decreases s.len() - k,
            {
                k = k + 1;
            }
            proof {
                lemma_primeiro_e(s@, i + 8, k as int, nao_hex());
            }
            if k > i + 8 {
                saida.append("runtime_<hash>");
                i = k;
                continue;
            }
        }
        if comeca_str(resto.as_slice(), "thread '") {
            let mut k: usize = i + 8;
            while k < s.len() && s[k] != '\''
                invariant
                    i + 8 <= k <= s@.len(),
                    forall|j: int| i + 8 <= j < k ==> s@[j] != '\'',
                decreases s.len() - k,
            {
                k = k + 1;
            }
            proof {
                lemma_primeiro_e(s@, i + 8, k as int, eh_aspa());
            }
            if s.len() > 2 && k < s.len() - 2 && s[k + 1] == ' ' && s[k + 2] == '(' {
                let mut f: usize = k + 3;
                while f < s.len() && '0' <= s[f] && s[f] <= '9'
                    invariant
                        k + 3 <= f <= s@.len(),
                        forall|j: int| k + 3 <= j < f ==> eh_digito(#[trigger] s@[j]),
                    decreases s.len() - f,
                {
                    f = f + 1;
                }
                proof {
                    lemma_primeiro_e(s@, k + 3, f as int, nao_digito());
                }
                if f > k + 3 && f < s.len() && s[f] == ')' {
                    let parte = copiar(s, i, k + 2);
                    anexar(&mut saida, parte.as_slice());
                    saida.append("(N)");
                    i = f + 1;
                    continue;
                }
            }
        }
        crate::texto::empurrar(&mut saida, s[i]);
        i = i + 1;
    }
    assert(saida@ + estabilizar_desde(s@, s@.len() as int) =~= saida@);
    saida
}

/// `primeiro` read on a suffix of `s`.
proof fn lemma_primeiro_desloca(s: Seq<char>, j: int, i: int, p: spec_fn(char) -> bool)
    requires
        0 <= j <= i,
        j <= s.len(),
    ensures
        primeiro(s, i, p) == primeiro(s.skip(j), i - j, p) + j,
    decreases s.len() - i,
{
    assert(s.skip(j).len() == s.len() - j);
    if i < s.len() {
        assert(s.skip(j)[i - j] == s[i]);
        lemma_primeiro_desloca(s, j, i + 1, p);
    }
}

/// `estabilizar_desde` only looks at what lies from its position on.
proof fn lemma_estabilizar_desloca(s: Seq<char>, j: int, i: int)
    requires
        0 <= j <= i,
        j <= s.len(),
    ensures
        estabilizar_desde(s, i) == estabilizar_desde(s.skip(j), i - j),
    decreases s.len() - i,
{
    let t = s.skip(j);
    assert(t.len() == s.len() - j);
    if i < s.len() {
        assert(t.skip(i - j) =~= s.skip(i));
        assert(t[i - j] == s[i]);
        lemma_primeiro_desloca(s, j, i + 8, nao_hex());
        lemma_primeiro_desloca(s, j, i + 8, eh_aspa());
        if i + 8 <= s.len() {
            lemma_primeiro(s, i + 8, nao_hex());
            lemma_primeiro(s, i + 8, eh_aspa());
            let k = fim_do_nome(s, i);
            lemma_primeiro_desloca(s, j, k + 3, nao_digito());
            if k + 2 < s.len() {
                assert(t[k + 1 - j] == s[k + 1]);
                assert(t[k + 2 - j] == s[k + 2]);
            }
            let f = fim_do_numero(s, i);
            if k + 3 <= s.len() {
                lemma_primeiro(s, k + 3, nao_digito());
            }
            if f < s.len() {
                assert(t[f - j] == s[f]);
            }
            if numero_de_thread(s, i) {
                assert(t.subrange(i - j, k + 2 - j) =~= s.subrange(i, k + 2));
                lemma_estabilizar_desloca(s, j, f + 1);
            }
            lemma_estabilizar_desloca(s, j, primeiro(s, i + 8, nao_hex()));
        }
        lemma_estabilizar_desloca(s, j, i + 1);
    }
}

/// Two texts that agree up to index `l`, where both hold `c`, a character
/// no run of `p` goes past, have the same first index of `p` from `i` on,
/// and it is at most `l`.
proof fn lemma_primeiro_ate(a: Seq<char>, b: Seq<char>, i: int, l: int, p: spec_fn(char) -> bool)
    requires
        0 <= i <= l < a.len(),
        l < b.len(),
        forall|k: int| i <= k <= l ==> a[k] == b[k],
        p(a[l]),
    ensures
        primeiro(a, i, p) == primeiro(b, i, p),
        primeiro(a, i, p) <= l,
    decreases l - i,
{
    if i < l && !p(a[i]) {
        lemma_primeiro_ate(a, b, i + 1, l, p);
    }
}

/// Two texts without quotes before `l`, where both start `thread '` or
/// `runtime_` and agree up to there, normalise the same from any `i <= l` on
/// when they do from `l` on.
proof fn lemma_estabilizar_ate(a: Seq<char>, b: Seq<char>, i: int, l: int)
    requires
        0 <= i <= l,
        l + 8 <= a.len(),
        l + 8 <= b.len(),
        forall|k: int| 0 <= k < l + 8 ==> a[k] == b[k],
        forall|k: int| 0 <= k < l ==> a[k] != '\'',
        comeca_com(a.skip(l), "thread '"@) || comeca_com(a.skip(l), "runtime_"@),
        estabilizar_desde(a, l) == estabilizar_desde(b, l),
    ensures
        estabilizar_desde(a, i) == estabilizar_desde(b, i),
    decreases l - i,
{
    if i < l {
        reveal_strlit("runtime_");
        reveal_strlit("thread '");
        let r = "runtime_"@;
        let th = "thread '"@;
        assert(a.skip(l).take(8)[0] == a[l]);
        assert(a.skip(l).take(8)[1] == a[l + 1]);
        assert(a[l] == 't' && a[l + 1] == 'h' || a[l] == 'r' && a[l + 1] == 'u');
        assert(a.skip(i).take(8) =~= b.skip(i).take(8));
        if comeca_com(a.skip(i), r) {
            if i + 8 > l {
                assert(a.skip(i).take(8)[l - i] == a[l]);
                assert(a.skip(i).take(8)[l - i + 1] == a[l + 1]);
            }
            assert(i + 8 <= l);
            lemma_primeiro_ate(a, b, i + 8, l, nao_hex());
            lemma_primeiro(a, i + 8, nao_hex());
            lemma_estabilizar_ate(a, b, primeiro(a, i + 8, nao_hex()), l);
        }
        if comeca_com(a.skip(i), th) {
            assert(a.skip(i).take(8)[7] == a[i + 7]);
            if i + 7 >= l {
                assert(a.skip(i).take(8)[l - i] == a[l]);
                assert(a.skip(i).take(8)[l - i + 1] == a[l + 1]);
            }
            assert(false);
        }
        assert(!numero_de_thread(a, i));
        assert(!numero_de_thread(b, i));
        lemma_estabilizar_ate(a, b, i + 1, l);
    }
}

/// How `p + "thread '" + nome + "' (" + d + ")" + q` normalises when `d` is
/// a run of digits and the name holds no quote.
proof fn lemma_estabilizar_thread(p: Seq<char>, nome: Seq<char>, d: Seq<char>, q: Seq<char>)
    requires
        forall|k: int| 0 <= k < nome.len() ==> nome[k] != '\'',
        d.len() > 0,
        so_digitos(d),
    ensures
        estabilizar_desde(p + "thread '"@ + nome + "' ("@ + d + ")"@ + q, p.len() as int)
            == "thread '"@ + nome + "' (N)"@ + estabilizar_desde(q, 0),
{
    reveal_strlit("runtime_");
    reveal_strlit("thread '");
    reveal_strlit("' (");
    reveal_strlit(")");
    reveal_strlit("' (N)");
    reveal_strlit("(N)");
    let s = p + "thread '"@ + nome + "' ("@ + d + ")"@ + q;
    let l = p.len() as int;
    let k = l + 8 + nome.len();
    let f = k + 3 + d.len();
    assert(s.skip(l).take(8) =~= "thread '"@);
    assert(s.skip(l)[0] == 't');
    assert(!comeca_com(s.skip(l), "runtime_"@)) by {
        if comeca_com(s.skip(l), "runtime_"@) {
            assert(s.skip(l).take(8)[0] == s.skip(l)[0]);
        }
    }
    assert forall|j: int| l + 8 <= j < k implies !eh_aspa()(#[trigger] s[j]) by {
        assert(s[j] == nome[j - l - 8]);
    }
    assert(s[k] == '\'');
    lemma_primeiro_e(s, l + 8, k, eh_aspa());
    assert(s[k + 1] == ' ');
    assert(s[k + 2] == '(');
    assert forall|j: int| k + 3 <= j < f implies !nao_digito()(#[trigger] s[j]) by {
        assert(s[j] == d[j - k - 3]);
    }
    assert(s[f] == ')');
    lemma_primeiro_e(s, k + 3, f, nao_digito());
    assert(numero_de_thread(s, l));
    assert(s.subrange(l, k + 2) + "(N)"@ =~= "thread '"@ + nome + "' (N)"@);
    lemma_estabilizar_desloca(s, f + 1, f + 1);
    assert(s.skip(f + 1) =~= q);
}

/// How `p + "runtime_" + h + q` normalises when `h` is a run of hexadecimal
/// digits that `q` does not continue.
proof fn lemma_estabilizar_hash(p: Seq<char>, h: Seq<char>, q: Seq<char>)
    requires
        h.len() > 0,
        forall|k: int| 0 <= k < h.len() ==> eh_hex(#[trigger] h[k]),
        q.len() > 0 ==> !eh_hex(q[0]),
    ensures
        estabilizar_desde(p + "runtime_"@ + h + q, p.len() as int) == "runtime_<hash>"@
            + estabilizar_desde(q, 0),
{
    reveal_strlit("runtime_");
    let s = p + "runtime_"@ + h + q;
    let l = p.len() as int;
    let f = l + 8 + h.len();
    assert(s.skip(l).take(8) =~= "runtime_"@);
    assert forall|k: int| l + 8 <= k < f implies !nao_hex()(#[trigger] s[k]) by {
        assert(s[k] == h[k - l - 8]);
    }
    if f < s.len() {
        assert(s[f] == q[0]);
    }
    lemma_primeiro_e(s, l + 8, f, nao_hex());
    lemma_estabilizar_desloca(s, f, f);
    assert(s.skip(f) =~= q);
}

/// A key does not depend on the hash in the name of the runtime's cache file
/// (`runtime_<hex>`): lines that differ only there, after a start without
/// quotes, give one key.
pub proof fn chave_independe_do_hash(p: Seq<char>, h1: Seq<char>, h2: Seq<char>, q: Seq<char>)
    requires
        forall|k: int| 0 <= k < p.len() ==> p[k] != '\'',
        h1.len() > 0,
        h2.len() > 0,
        forall|k: int| 0 <= k < h1.len() ==> eh_hex(#[trigger] h1[k]),
        forall|k: int| 0 <= k < h2.len() ==> eh_hex(#[trigger] h2[k]),
        q.len() > 0 ==> !eh_hex(q[0]),
    ensures
        estabilizar_desde(p + "runtime_"@ + h1 + q, 0) == estabilizar_desde(
            p + "runtime_"@ + h2 + q,
            0,
        ),
{
    reveal_strlit("runtime_");
    let a = p + "runtime_"@ + h1 + q;
    let b = p + "runtime_"@ + h2 + q;
    let l = p.len() as int;
    lemma_estabilizar_hash(p, h1, q);
    lemma_estabilizar_hash(p, h2, q);
    assert forall|k: int| 0 <= k < l + 8 implies a[k] == b[k] by {
        if k < l {
            assert(a[k] == p[k]);
            assert(b[k] == p[k]);
        } else {
            assert(a[k] == "runtime_"@[k - l]);
            assert(b[k] == "runtime_"@[k - l]);
        }
    }
    assert forall|k: int| 0 <= k < l implies a[k] != '\'' by {
        assert(a[k] == p[k]);
    }
    assert(a.skip(l).take(8) =~= "runtime_"@);
    lemma_estabilizar_ate(a, b, 0, l);
}

/// A key does not depend on the number of a thread (`thread 'main' (11220)`):
/// lines that differ only there, after a start without quotes, give one key.
pub proof fn chave_independe_do_numero_da_thread(
    p: Seq<char>,
    nome: Seq<char>,
    d1: Seq<char>,
    d2: Seq<char>,
    q: Seq<char>,
)
    requires
        forall|k: int| 0 <= k < p.len() ==> p[k] != '\'',
        forall|k: int| 0 <= k < nome.len() ==> nome[k] != '\'',
        d1.len() > 0,
        d2.len() > 0,
        so_digitos(d1),
        so_digitos(d2),
    ensures
        estabilizar_desde(p + "thread '"@ + nome + "' ("@ + d1 + ")"@ + q, 0) == estabilizar_desde(
            p + "thread '"@ + nome + "' ("@ + d2 + ")"@ + q,
            0,
        ),
{
    reveal_strlit("thread '");
    let a = p + "thread '"@ + nome + "' ("@ + d1 + ")"@ + q;
    let b = p + "thread '"@ + nome + "' ("@ + d2 + ")"@ + q;
    let l = p.len() as int;
    lemma_estabilizar_thread(p, nome, d1, q);
    lemma_estabilizar_thread(p, nome, d2, q);
    assert forall|k: int| 0 <= k < l + 8 implies a[k] == b[k] by {
        if k < l {
            assert(a[k] == p[k]);
            assert(b[k] == p[k]);
        } else {
            assert(a[k] == "thread '"@[k - l]);
            assert(b[k] == "thread '"@[k - l]);
        }
    }
    assert forall|k: int| 0 <= k < l implies a[k] != '\'' by {
        assert(a[k] == p[k]);
    }
    assert(a.skip(l).take(8) =~= "thread '"@);
    lemma_estabilizar_ate(a, b, 0, l);
}

proof fn lemma_sem_marcas(s: Seq<char>, i: int)
    requires
        0 <= i <= s.len(),
        !contem(s, "runtime_"@),
        !contem(s, "thread '"@),
    ensures
        estabilizar_desde(s, i) == s.skip(i),
    decreases s.len() - i,
{
    if i < s.len() {
        reveal_strlit("runtime_");
        reveal_strlit("thread '");
        if comeca_com(s.skip(i), "runtime_"@) {
            assert(s.subrange(i, i + 8) =~= s.skip(i).take(8));
            assert(crate::texto::ocorre_em(s, "runtime_"@, i));
        }
        if comeca_com(s.skip(i), "thread '"@) {
            assert(s.subrange(i, i + 8) =~= s.skip(i).take(8));
            assert(crate::texto::ocorre_em(s, "thread '"@, i));
        }
        lemma_sem_marcas(s, i + 1);
        assert(seq![s[i]] + s.skip(i + 1) =~= s.skip(i));
    } else {
        assert(s.skip(i) =~= Seq::<char>::empty());
    }
}

proof fn lemma_sem_parenteses(s: Seq<char>, i: int)
    requires
        0 <= i <= s.len(),
        !contem(s, "runtime_"@),
        forall|k: int| 0 <= k < s.len() ==> s[k] != '(',
    ensures
        estabilizar_desde(s, i) == s.skip(i),
    decreases s.len() - i,
{
    if i < s.len() {
        reveal_strlit("runtime_");
        if comeca_com(s.skip(i), "runtime_"@) {
            assert(s.subrange(i, i + 8) =~= s.skip(i).take(8));
            assert(crate::texto::ocorre_em(s, "runtime_"@, i));
        }
        if i + 8 <= s.len() {
            lemma_primeiro(s, i + 8, eh_aspa());
            let k = fim_do_nome(s, i);
            if k + 2 < s.len() {
                assert(s[k + 2] != '(');
            }
        }
        assert(!numero_de_thread(s, i));
        lemma_sem_parenteses(s, i + 1);
        assert(seq![s[i]] + s.skip(i + 1) =~= s.skip(i));
    } else {
        assert(s.skip(i) =~= Seq::<char>::empty());
    }
}

/// A line with no `runtime_` and no parenthesis is its own key.
pub proof fn chave_sem_parenteses_fica(s: Seq<char>)
    requires
        !contem(s, "runtime_"@),
        forall|k: int| 0 <= k < s.len() ==> s[k] != '(',
    ensures
        estabilizar_desde(s, 0) == s,
{
    lemma_sem_parenteses(s, 0);
    assert(s.skip(0) =~= s);
}

/// A line with neither `runtime_` nor `thread '` is its own key: any other
/// number, between parentheses or not, stays as it is.
pub proof fn chave_sem_marcas_fica(s: Seq<char>)
    requires
        !contem(s, "runtime_"@),
        !contem(s, "thread '"@),
    ensures
        estabilizar_desde(s, 0) == s,
{
    lemma_sem_marcas(s, 0);
    assert(s.skip(0) =~= s);
}

/// The grouping key of a failure: the first non-blank line of stderr,
/// stabilised. A Rust panic has its useful message on the SECOND line.
pub open spec fn chave_de(stderr: Seq<char>) -> Seq<char> {
    let ls = nao_brancas(linhas(stderr));
    if ls.len() == 0 {
        "(stderr vazio)"@
    } else if comeca_com(ls[0], "thread '"@) && contem(ls[0], "panicked at"@) && ls.len() > 1 {
        "panic no runtime: "@ + estabilizar_desde(ls[1], 0)
    } else {
        estabilizar_desde(ls[0], 0)
    }
}

/// The key under which a failure is grouped in the report.
pub fn chave_de_falha(s: &Saida) -> (r: String)
    ensures
        r@ == chave_de(s.stderr@),
{
    let cs = caracteres(s.stderr.as_str());
    let ls = linhas_nao_brancas(cs.as_slice());
    if ls.len() == 0 {
        return "(stderr vazio)".to_owned();
    }
    let primeira = ls[0].as_slice();
    if comeca_str(primeira, "thread '") && contem_str(primeira, "panicked at") && ls.len() > 1 {
        let mut r = "panic no runtime: ".to_owned();
        let e = estabilizar(ls[1].as_slice());
        r.append(e.as_str());
        return r;
    }
    estabilizar(primeira)
}

// ---------------------------------------------------------------- presentation

/// The first `n` characters of `s`, the last of them replaced by `…` when
/// `s` is longer.
pub open spec fn truncado(s: Seq<char>, n: nat) -> Seq<char> {
    if s.len() > n {
        if n > 0 {
            s.take(n - 1).push('…')
        } else {
            seq!['…']
        }
    } else {
        s
    }
}

/// Truncates to `n` characters, marking the cut with `…`.
pub fn truncar(s: &[char], n: usize) -> (r: Vec<char>)
    ensures
        r@ == truncado(s@, n as nat),
{
    if s.len() > n {
        let mut t = if n > 0 {
            copiar(s, 0, n - 1)
        } else {
            Vec::new()
        };
        t.push('…');
        proof {
            if n > 0 {
                assert(s@.subrange(0, n - 1) =~= s@.take(n - 1));
            } else {
                assert(t@ =~= seq!['…']);
            }
        }
        t
    } else {
        let t = copiar(s, 0, s.len());
        assert(t@ =~= s@);
        t
    }
}

/// The words that describe a divergence.
pub open spec fn descricao(d: Divergencia) -> Seq<char> {
    match d {
        Divergencia::Codigo => "código de saída"@,
        Divergencia::Linha(n) => "stdout linha "@ + decimal(n as nat),
    }
}

pub fn descrever(d: Divergencia) -> (r: String)
    ensures
        r@ == descricao(d),
{
    match d {
        Divergencia::Codigo => "código de saída".to_owned(),
        Divergencia::Linha(n) => {
            let mut s = "stdout linha ".to_owned();
            escrever_decimal(&mut s, n as u64);
            s
        },
    }
}

/// The line around which a divergence is shown.
pub open spec fn foco_de(d: Divergencia) -> usize {
    match d {
        Divergencia::Codigo => 1,
        Divergencia::Linha(n) => n,
    }
}

pub fn foco(d: Divergencia) -> (r: usize)
    ensures
        r == foco_de(d),
{
    match d {
        Divergencia::Codigo => 1,
        Divergencia::Linha(n) => n,
    }
}

// ---------------------------------------------------------------- side by side

/// The columns as texts: a title and a stdout each.
pub open spec fn colunas_vistas(c: Seq<(&str, &str)>) -> Seq<(Seq<char>, Seq<char>)> {
    c.map_values(|p: (&str, &str)| (p.0@, p.1@))
}

/// A cell: truncated to the column width, then padded to it.
pub open spec fn celula(x: Seq<char>) -> Seq<char> {
    alinhar_esquerda(truncado(x, 38), 38)
}

/// The largest number of lines among the columns.
pub open spec fn max_linhas(cols: Seq<(Seq<char>, Seq<char>)>) -> nat
    decreases cols.len(),
{
    if cols.len() == 0 {
        0
    } else {
        let m = max_linhas(cols.drop_last());
        let n = linhas(cols.last().1).len();
        if m >= n {
            m
        } else {
            n
        }
    }
}

/// Line `i` of a text, or `∅` when it has fewer lines.
pub open spec fn linha_ou_vazio(t: Seq<char>, i: int) -> Seq<char> {
    if 0 <= i < linhas(t).len() {
        linhas(t)[i]
    } else {
        "∅"@
    }
}

pub open spec fn titulos(cols: Seq<(Seq<char>, Seq<char>)>) -> Seq<Seq<char>> {
    cols.map_values(|c: (Seq<char>, Seq<char>)| celula(c.0))
}

pub open spec fn celulas_da_linha(cols: Seq<(Seq<char>, Seq<char>)>, i: int) -> Seq<Seq<char>> {
    cols.map_values(|c: (Seq<char>, Seq<char>)| celula(linha_ou_vazio(c.1, i)))
}

/// Row `i` (0-based) of the window, marked when it is the focus.
pub open spec fn linha_da_janela(cols: Seq<(Seq<char>, Seq<char>)>, foco: nat, i: nat) -> Seq<
    char,
> {
    "  "@ + (if i + 1 == foco {
        ">"@
    } else {
        " "@
    }) + alinhar_direita(decimal(i + 1), 4) + "  "@ + juntar(celulas_da_linha(cols, i as int), " | "@)
        + "\n"@
}

/// Rows `i` to `fim` of the window.
pub open spec fn janela(cols: Seq<(Seq<char>, Seq<char>)>, foco: nat, i: nat, fim: nat) -> Seq<
    char,
>
    decreases fim - i,
{
    if i >= fim {
        Seq::empty()
    } else {
        linha_da_janela(cols, foco, i) + janela(cols, foco, i + 1, fim)
    }
}

/// First row of the window around `foco`: two lines before it.
pub open spec fn inicio_da_janela(foco: nat) -> nat {
    if foco >= 3 {
        (foco - 3) as nat
    } else {
        0
    }
}

/// End of the window around `foco`: six lines after it, at most the last line.
pub open spec fn fim_da_janela(cols: Seq<(Seq<char>, Seq<char>)>, foco: nat) -> nat {
    if foco + 6 <= max_linhas(cols) {
        foco + 6
    } else {
        max_linhas(cols)
    }
}

/// The columns side by side, in a window around line `foco` (1-based).
pub open spec fn lado_a_lado_de(cols: Seq<(Seq<char>, Seq<char>)>, foco: nat) -> Seq<char> {
    "         "@ + juntar(titulos(cols), " | "@) + "\n"@ + janela(
        cols,
        foco,
        inicio_da_janela(foco),
        fim_da_janela(cols, foco),
    ) + if fim_da_janela(cols, foco) < max_linhas(cols) {
        "         … ("@ + decimal(max_linhas(cols)) + " linhas ao todo)\n"@
    } else {
        Seq::empty()
    }
}

/// A cell of the table.
fn celula_de(x: &[char]) -> (r: Vec<char>)
    ensures
        r@ == celula(x@),
{
    let t = truncar(x, 38);
    let mut s = String::new();
    escrever_alinhado_esquerda(&mut s, t.as_slice(), 38);
    caracteres(s.as_str())
}

/// Stdouts side by side, in a window around line `foco` (1-based).
pub fn lado_a_lado(colunas: &[(&str, &str)], foco: usize) -> (r: String)
    ensures
        r@ == lado_a_lado_de(colunas_vistas(colunas@), foco as nat),
{
    let ghost cols = colunas_vistas(colunas@);
    let mut ls: Vec<Vec<Vec<char>>> = Vec::new();
    let mut max: usize = 0;
    let mut j: usize = 0;
    while j < colunas.len()
        invariant
            j <= colunas@.len(),
            cols == colunas_vistas(colunas@),
            ls@.len() == j,
            forall|k: int| 0 <= k < j ==> vistas(#[trigger] ls@[k]@) == linhas(cols[k].1),
            max == max_linhas(cols.take(j as int)),
        decreases colunas.len() - j,
    {
        let cs = caracteres(colunas[j].1);
        let l = dividir_linhas(cs.as_slice());
        proof {
            assert(cols.take(j + 1).drop_last() =~= cols.take(j as int));
            assert(cols.take(j + 1).last() == cols[j as int]);
            assert(cols[j as int].1 == colunas@[j as int].1@);
            assert(vistas(l@).len() == l@.len());
        }
        if l.len() > max {
            max = l.len();
        }
        ls.push(l);
        j = j + 1;
    }
    assert(cols.take(colunas@.len() as int) =~= cols);
    let inicio: usize = if foco >= 3 { foco - 3 } else { 0 };
    let fim: usize = if foco <= max && max - foco >= 6 { foco + 6 } else { max };
    let mut out = String::new();
    out.append("         ");
    let mut cab: Vec<Vec<char>> = Vec::new();
    let mut j: usize = 0;
    while j < colunas.len()
        invariant
            j <= colunas@.len(),
            cols == colunas_vistas(colunas@),
            cab@.len() == j,
            vistas(cab@) == titulos(cols).take(j as int),
        decreases colunas.len() - j,
    {
        let nome = caracteres(colunas[j].0);
        let c = celula_de(nome.as_slice());
        cab.push(c);
        proof {
            assert(titulos(cols)[j as int] == celula(cols[j as int].0));
            assert(vistas(cab@) =~= titulos(cols).take(j + 1));
        }
        j = j + 1;
    }
    assert(titulos(cols).take(colunas@.len() as int) =~= titulos(cols));
    escrever_juntos(&mut out, cab.as_slice(), " | ");
    out.append("\n");
    let ghost cabecalho = out@;
    let ghost alvo = janela(cols, foco as nat, inicio as nat, fim as nat);
    let mut i: usize = inicio;
    assert(out@ + janela(cols, foco as nat, inicio as nat, fim as nat) == cabecalho + alvo);
    while i < fim
        invariant
            inicio <= i,
            fim <= max,
            cols == colunas_vistas(colunas@),
            ls@.len() == colunas@.len(),
            forall|k: int| 0 <= k < ls@.len() ==> vistas(#[trigger] ls@[k]@) == linhas(cols[k].1),
            out@ + janela(cols, foco as nat, i as nat, fim as nat) == cabecalho + alvo,
        decreases fim - i,
    {
        let ghost antes = out@;
        out.append("  ");
        if i + 1 == foco {
            out.append(">");
        } else {
            out.append(" ");
        }
        let numero = crate::texto::decimal_de((i + 1) as u64);
        escrever_alinhado_direita(&mut out, numero.as_slice(), 4);
        out.append("  ");
        let mut cel: Vec<Vec<char>> = Vec::new();
        let mut k: usize = 0;
        while k < ls.len()
            invariant
                k <= ls@.len(),
                ls@.len() == colunas@.len(),
                cols == colunas_vistas(colunas@),
                forall|m: int| 0 <= m < ls@.len() ==> vistas(#[trigger] ls@[m]@) == linhas(cols[m].1),
                cel@.len() == k,
                vistas(cel@) == celulas_da_linha(cols, i as int).take(k as int),
            decreases ls.len() - k,
        {
            let c = if i < ls[k].len() {
                celula_de(ls[k][i].as_slice())
            } else {
                let vazio = caracteres("∅");
                celula_de(vazio.as_slice())
            };
            proof {
                assert(vistas(ls@[k as int]@) == linhas(cols[k as int].1));
                if i < ls@[k as int]@.len() {
                    assert(vistas(ls@[k as int]@)[i as int] == ls@[k as int]@[i as int]@);
                }
                assert(celulas_da_linha(cols, i as int)[k as int] == celula(
                    linha_ou_vazio(cols[k as int].1, i as int),
                ));
            }
            cel.push(c);
            assert(vistas(cel@) =~= celulas_da_linha(cols, i as int).take(k + 1));
            k = k + 1;
        }
        assert(celulas_da_linha(cols, i as int).take(ls@.len() as int) =~= celulas_da_linha(
            cols,
            i as int,
        ));
        escrever_juntos(&mut out, cel.as_slice(), " | ");
        out.append("\n");
        proof {
            assert(out@ =~= antes + linha_da_janela(cols, foco as nat, i as nat));
            assert(janela(cols, foco as nat, i as nat, fim as nat) == linha_da_janela(
                cols,
                foco as nat,
                i as nat,
            ) + janela(cols, foco as nat, (i + 1) as nat, fim as nat));
            assert(out@ + janela(cols, foco as nat, (i + 1) as nat, fim as nat) =~= antes + janela(
                cols,
                foco as nat,
                i as nat,
                fim as nat,
            ));
        }
        i = i + 1;
    }
    assert(out@ =~= cabecalho + alvo);
    if fim < max {
        out.append("         … (");
        escrever_decimal(&mut out, max as u64);
        out.append(" linhas ao todo)\n");
    }
    out
}

// ---------------------------------------------------------------- report

/// `DART!` when the program does not run on the VM.
pub open spec fn parte_dart(r: Resultado) -> Seq<char> {
    if r.dart.codigo != 0 {
        "DART!  "@ + r.programa.nome@ + "  (dart run saiu com "@ + decimal_com_sinal(
            r.dart.codigo as int,
        ) + ": "@ + truncado(primeira_nao_branca(r.dart.stderr@), 90) + ")\n"@
    } else {
        Seq::empty()
    }
}

/// DDC × VM: an undeclared divergence, or a declared one that did not happen.
pub open spec fn parte_ddc(r: Resultado) -> Seq<char> {
    match comparacao(r.dart, r.ddc) {
        Some(d) => if r.programa.diverge_ddc is None {
            "DDC≠VM "@ + r.programa.nome@ + "  ("@ + descricao(d) + ")\n"@ + lado_a_lado_de(
                seq![("dart run"@, r.dart.stdout@), ("ddc+node"@, r.ddc.stdout@)],
                foco_de(d) as nat,
            ) + "       códigos: dart="@ + decimal_com_sinal(r.dart.codigo as int) + " ddc="@
                + decimal_com_sinal(r.ddc.codigo as int) + "  stderr ddc: "@ + truncado(
                primeira_nao_branca(r.ddc.stderr@),
                80,
            ) + "\n"@
        } else {
            Seq::empty()
        },
        None => match r.programa.diverge_ddc {
            Some(m) => "AVISO  "@ + r.programa.nome@
                + "  cabeçalho declara divergência DDC mas as saídas batem: "@ + m@ + "\n"@,
            None => Seq::empty(),
        },
    }
}

/// The columns shown for a failure of DartForge.
pub open spec fn colunas_da_falha(r: Resultado, f: Saida, nativo: bool) -> Seq<
    (Seq<char>, Seq<char>),
> {
    if nativo {
        seq![("dart run"@, r.dart.stdout@), ("dartforge nativo"@, f.stdout@)]
    } else {
        seq![("dart run"@, r.dart.stdout@), ("ddc+node"@, r.ddc.stdout@), ("dartforge"@, f.stdout@)]
    }
}

/// The exit codes shown for a failure of DartForge.
pub open spec fn codigos_da_falha(r: Resultado, f: Saida, nativo: bool) -> Seq<char> {
    if nativo {
        "códigos: dart="@ + decimal_com_sinal(r.dart.codigo as int) + " forge="@
            + decimal_com_sinal(f.codigo as int)
    } else {
        "códigos: dart="@ + decimal_com_sinal(r.dart.codigo as int) + " ddc="@ + decimal_com_sinal(
            r.ddc.codigo as int,
        ) + " forge="@ + decimal_com_sinal(f.codigo as int)
    }
}

/// The key of the group of a failure of DartForge.
pub open spec fn chave_do_grupo(f: Saida) -> Seq<char> {
    truncado(chave_de(f.stderr@), 120)
}

/// `ok` or `FALHA` for DartForge.
pub open spec fn parte_forge(r: Resultado, nativo: bool) -> Seq<char> {
    match r.forge {
        None => Seq::empty(),
        Some(f) => match forge_diverge(r) {
            None => "ok     "@ + r.programa.nome@ + "\n"@,
            Some(d) => "FALHA  "@ + r.programa.nome@ + "  ("@ + descricao(d) + ")\n"@
                + lado_a_lado_de(colunas_da_falha(r, f, nativo), foco_de(d) as nat) + "       "@
                + codigos_da_falha(r, f, nativo) + "\n"@ + "       stderr: "@ + chave_do_grupo(f)
                + "\n"@,
        },
    }
}

/// Everything the report says of one program.
pub open spec fn bloco(r: Resultado, nativo: bool) -> Seq<char> {
    parte_dart(r) + (if nativo {
        Seq::empty()
    } else {
        parte_ddc(r)
    }) + parte_forge(r, nativo)
}

pub open spec fn corpo(rs: Seq<Resultado>, nativo: bool) -> Seq<char>
    decreases rs.len(),
{
    if rs.len() == 0 {
        Seq::empty()
    } else {
        corpo(rs.drop_last(), nativo) + bloco(rs.last(), nativo)
    }
}

pub open spec fn conta_ok(rs: Seq<Resultado>) -> nat
    decreases rs.len(),
{
    if rs.len() == 0 {
        0
    } else {
        conta_ok(rs.drop_last()) + if rs.last().forge is Some && forge_diverge(rs.last()) is None {
            1nat
        } else {
            0nat
        }
    }
}

pub open spec fn conta_avisos(rs: Seq<Resultado>) -> nat
    decreases rs.len(),
{
    if rs.len() == 0 {
        0
    } else {
        conta_avisos(rs.drop_last()) + if comparacao(rs.last().dart, rs.last().ddc) is Some
            && rs.last().programa.diverge_ddc is None {
            1nat
        } else {
            0nat
        }
    }
}

pub open spec fn conta_declarados(rs: Seq<Resultado>) -> nat
    decreases rs.len(),
{
    if rs.len() == 0 {
        0
    } else {
        conta_declarados(rs.drop_last()) + if rs.last().programa.diverge_ddc is Some {
            1nat
        } else {
            0nat
        }
    }
}

pub open spec fn algum_forge(rs: Seq<Resultado>) -> bool
    decreases rs.len(),
{
    rs.len() > 0 && (algum_forge(rs.drop_last()) || rs.last().forge is Some)
}

/// (key, name) of each failure of DartForge, in order.
pub open spec fn falhas(rs: Seq<Resultado>) -> Seq<(Seq<char>, Seq<char>)>
    decreases rs.len(),
{
    if rs.len() == 0 {
        Seq::empty()
    } else {
        falhas(rs.drop_last()) + match rs.last().forge {
            Some(f) => if forge_diverge(rs.last()) is Some {
                seq![(chave_do_grupo(f), rs.last().programa.nome@)]
            } else {
                Seq::empty()
            },
            None => Seq::empty(),
        }
    }
}

/// First group `k' >= k` with the given key, or `gs.len()`.
pub open spec fn indice_do_grupo(gs: Seq<(Seq<char>, Seq<Seq<char>>)>, chave: Seq<char>, k: int) -> int
    decreases gs.len() - k,
{
    if k >= gs.len() {
        gs.len() as int
    } else if gs[k].0 == chave {
        k
    } else {
        indice_do_grupo(gs, chave, k + 1)
    }
}

/// `nome` added to the group of `chave` (a new group at the end when none has it).
pub open spec fn adicionar(gs: Seq<(Seq<char>, Seq<Seq<char>>)>, chave: Seq<char>, nome: Seq<char>) -> Seq<
    (Seq<char>, Seq<Seq<char>>),
> {
    let k = indice_do_grupo(gs, chave, 0);
    if 0 <= k < gs.len() {
        gs.update(k, (gs[k].0, gs[k].1.push(nome)))
    } else {
        gs.push((chave, seq![nome]))
    }
}

/// The failures grouped by key, the groups in the order their keys first appear.
pub open spec fn agrupar(ps: Seq<(Seq<char>, Seq<char>)>) -> Seq<(Seq<char>, Seq<Seq<char>>)>
    decreases ps.len(),
{
    if ps.len() == 0 {
        Seq::empty()
    } else {
        adicionar(agrupar(ps.drop_last()), ps.last().0, ps.last().1)
    }
}

/// Priority of groups: the larger first, then by key.
pub open spec fn grupo_antes(a: (Seq<char>, Seq<Seq<char>>), b: (Seq<char>, Seq<Seq<char>>)) -> bool {
    a.1.len() > b.1.len() || (a.1.len() == b.1.len() && crate::texto::lex_menor(a.0, b.0))
}

pub open spec fn posicao_do_grupo(
    s: Seq<(Seq<char>, Seq<Seq<char>>)>,
    g: (Seq<char>, Seq<Seq<char>>),
    i: int,
) -> int
    decreases s.len() - i,
{
    if i >= s.len() {
        s.len() as int
    } else if grupo_antes(g, s[i]) {
        i
    } else {
        posicao_do_grupo(s, g, i + 1)
    }
}

/// The groups ordered by priority (a stable insertion sort).
pub open spec fn ordenar_grupos(gs: Seq<(Seq<char>, Seq<Seq<char>>)>) -> Seq<
    (Seq<char>, Seq<Seq<char>>),
>
    decreases gs.len(),
{
    if gs.len() == 0 {
        Seq::empty()
    } else {
        let s = ordenar_grupos(gs.drop_last());
        s.insert(posicao_do_grupo(s, gs.last(), 0), gs.last())
    }
}

proof fn lemma_grupo_antes_transitiva(
    a: (Seq<char>, Seq<Seq<char>>),
    b: (Seq<char>, Seq<Seq<char>>),
    c: (Seq<char>, Seq<Seq<char>>),
)
    requires
        grupo_antes(a, b),
        grupo_antes(b, c),
    ensures
        grupo_antes(a, c),
{
    if a.1.len() == b.1.len() && b.1.len() == c.1.len() {
        lemma_lex_transitiva(a.0, b.0, c.0);
    }
}

proof fn lemma_propriedades_da_posicao(
    s: Seq<(Seq<char>, Seq<Seq<char>>)>,
    g: (Seq<char>, Seq<Seq<char>>),
    i: int,
)
    requires
        0 <= i <= s.len(),
    ensures
        i <= posicao_do_grupo(s, g, i) <= s.len(),
        forall|k: int| i <= k < posicao_do_grupo(s, g, i) ==> !grupo_antes(g, #[trigger] s[k]),
        posicao_do_grupo(s, g, i) < s.len() ==> grupo_antes(g, s[posicao_do_grupo(s, g, i)]),
    decreases s.len() - i,
{
    if i < s.len() && !grupo_antes(g, s[i]) {
        lemma_propriedades_da_posicao(s, g, i + 1);
    }
}

/// No group goes before an earlier one.
pub open spec fn grupos_em_ordem(s: Seq<(Seq<char>, Seq<Seq<char>>)>) -> bool {
    forall|i: int, j: int| 0 <= i < j < s.len() ==> !grupo_antes(#[trigger] s[j], #[trigger] s[i])
}

/// The groups of failures come out by priority (the larger groups first,
/// then by key), and they are just the groups that were formed.
pub proof fn grupos_por_prioridade(gs: Seq<(Seq<char>, Seq<Seq<char>>)>)
    ensures
        grupos_em_ordem(ordenar_grupos(gs)),
        ordenar_grupos(gs).to_multiset() == gs.to_multiset(),
    decreases gs.len(),
{
    if gs.len() == 0 {
        assert(gs =~= Seq::<(Seq<char>, Seq<Seq<char>>)>::empty());
    } else {
        grupos_por_prioridade(gs.drop_last());
        let r = ordenar_grupos(gs.drop_last());
        let x = gs.last();
        let p = posicao_do_grupo(r, x, 0);
        lemma_propriedades_da_posicao(r, x, 0);
        let t = r.insert(p, x);
        assert(ordenar_grupos(gs) == t);
        assert forall|i: int, j: int| 0 <= i < j < t.len() implies !grupo_antes(
            #[trigger] t[j],
            #[trigger] t[i],
        ) by {
            if i < p && j < p {
                assert(t[i] == r[i] && t[j] == r[j]);
            } else if i < p && j == p {
                assert(t[i] == r[i] && t[j] == x);
            } else if i < p {
                assert(t[i] == r[i] && t[j] == r[j - 1]);
            } else if i == p {
                assert(t[i] == x && t[j] == r[j - 1]);
                if grupo_antes(r[j - 1], x) {
                    lemma_grupo_antes_transitiva(r[j - 1], x, r[p]);
                    if j - 1 == p {
                        lemma_lex_assimetrica(r[p].0, r[p].0);
                    }
                }
            } else {
                assert(t[i] == r[i - 1] && t[j] == r[j - 1]);
            }
        }
        vstd::seq_lib::to_multiset_insert(r, p, x);
        assert(gs =~= gs.drop_last().push(x));
        vstd::seq_lib::to_multiset_build(gs.drop_last(), x);
    }
}

proof fn lemma_ocorre_antes(a: Seq<char>, b: Seq<char>, p: Seq<char>, k: int)
    requires
        crate::texto::ocorre_em(a, p, k),
    ensures
        crate::texto::ocorre_em(a + b, p, k),
{
    assert((a + b).subrange(k, k + p.len()) =~= a.subrange(k, k + p.len()));
}

proof fn lemma_ocorre_depois(x: Seq<char>, a: Seq<char>, p: Seq<char>, k: int)
    requires
        crate::texto::ocorre_em(a, p, k),
    ensures
        crate::texto::ocorre_em(x + a, p, k + x.len()),
{
    assert((x + a).subrange(k + x.len(), k + x.len() + p.len()) =~= a.subrange(k, k + p.len()));
}

/// Where the block of result `i` stands in the body of the report.
proof fn lemma_bloco_no_corpo(rs: Seq<Resultado>, i: int, nativo: bool) -> (k: int)
    requires
        0 <= i < rs.len(),
    ensures
        crate::texto::ocorre_em(corpo(rs, nativo), bloco(rs[i], nativo), k),
    decreases rs.len(),
{
    let a = corpo(rs.drop_last(), nativo);
    let b = bloco(rs.last(), nativo);
    if i == rs.len() - 1 {
        assert((a + b).subrange(a.len() as int, (a.len() + b.len()) as int) =~= b);
        a.len() as int
    } else {
        let k = lemma_bloco_no_corpo(rs.drop_last(), i, nativo);
        assert(rs.drop_last()[i] == rs[i]);
        lemma_ocorre_antes(a, b, bloco(rs[i], nativo), k);
        k
    }
}

/// In a report of a run on the web, a program whose header declares a
/// divergence of the DDC that did not happen (the VM and the DDC gave the
/// same stdout and exit code) gets the warning line
/// `AVISO  <nome>  cabeçalho declara divergência DDC mas as saídas batem: <motivo>`.
pub proof fn aviso_de_divergencia_que_nao_houve(rs: Seq<Resultado>, i: int)
    requires
        0 <= i < rs.len(),
        rs.len() > 0 && !rs[0].nativo,
        rs[i].programa.diverge_ddc is Some,
        rs[i].dart.stdout@ == rs[i].ddc.stdout@,
        rs[i].dart.codigo == rs[i].ddc.codigo,
    ensures
        contem(
            relatorio_de(rs),
            "AVISO  "@ + rs[i].programa.nome@
                + "  cabeçalho declara divergência DDC mas as saídas batem: "@
                + rs[i].programa.diverge_ddc.unwrap()@ + "\n"@,
        ),
{
    let r = rs[i];
    let linha = "AVISO  "@ + r.programa.nome@
        + "  cabeçalho declara divergência DDC mas as saídas batem: "@
        + r.programa.diverge_ddc.unwrap()@ + "\n"@;
    comparacao_caracterizada(r.dart, r.ddc);
    assert(!eh_nativo(rs));
    assert(parte_ddc(r) == linha);
    let k = lemma_bloco_no_corpo(rs, i, false);
    let pd = parte_dart(r);
    let pf = parte_forge(r, false);
    assert(bloco(r, false) == pd + linha + pf);
    assert((pd + linha).subrange(pd.len() as int, (pd.len() + linha.len()) as int) =~= linha);
    assert(crate::texto::ocorre_em(pd + linha, linha, pd.len() as int));
    lemma_ocorre_antes(pd + linha, pf, linha, pd.len() as int);
    let c = corpo(rs, false);
    let j = k + pd.len();
    assert(c.subrange(k, k + bloco(r, false).len()) == bloco(r, false));
    assert(c.subrange(j, j + linha.len()) =~= bloco(r, false).subrange(
        pd.len() as int,
        (pd.len() + linha.len()) as int,
    ));
    assert(crate::texto::ocorre_em(c, linha, j));
    let resto = "\n"@ + resumo_forge(rs) + resumo_ddc(rs) + secao_de_grupos(rs);
    lemma_ocorre_antes(c, resto, linha, j);
    assert(relatorio_de(rs) =~= c + resto);
    assert(crate::texto::ocorre_em(relatorio_de(rs), linha, j));
}

/// The lines of the groups: size and key, then the names.
pub open spec fn texto_dos_grupos(gs: Seq<(Seq<char>, Seq<Seq<char>>)>) -> Seq<char>
    decreases gs.len(),
{
    if gs.len() == 0 {
        Seq::empty()
    } else {
        texto_dos_grupos(gs.drop_last()) + "  "@ + alinhar_direita(
            decimal(gs.last().1.len()),
            4,
        ) + "  "@ + gs.last().0 + "\n"@ + "        "@ + juntar(gs.last().1, ", "@) + "\n"@
    }
}

pub open spec fn eh_nativo(rs: Seq<Resultado>) -> bool {
    rs.len() > 0 && rs[0].nativo
}

/// The summary line of DartForge.
pub open spec fn resumo_forge(rs: Seq<Resultado>) -> Seq<char> {
    if algum_forge(rs) {
        (if eh_nativo(rs) {
            "DartForge Nativo"@
        } else {
            "DartForge"@
        }) + ": "@ + decimal(conta_ok(rs)) + "/"@ + decimal(rs.len()) + " ok\n"@
    } else {
        Seq::empty()
    }
}

/// The summary line of DDC × VM (absent in native runs).
pub open spec fn resumo_ddc(rs: Seq<Resultado>) -> Seq<char> {
    if !eh_nativo(rs) {
        "DDC×VM: "@ + decimal((rs.len() - conta_avisos(rs) - conta_declarados(rs)) as nat) + "/"@
            + decimal(rs.len()) + " batem (sem contar "@ + decimal(conta_declarados(rs))
            + " com divergência declarada)\n"@
    } else {
        Seq::empty()
    }
}

/// The failures of DartForge grouped by key, when there are any.
pub open spec fn secao_de_grupos(rs: Seq<Resultado>) -> Seq<char> {
    if falhas(rs).len() > 0 {
        "\nFalhas por primeira linha do stderr do DartForge (prioridade = tamanho do grupo):\n"@
            + texto_dos_grupos(ordenar_grupos(agrupar(falhas(rs))))
    } else {
        Seq::empty()
    }
}

/// The whole report: one line per program, details of the failures, the
/// summary and the failures grouped by the first line of stderr.
pub open spec fn relatorio_de(rs: Seq<Resultado>) -> Seq<char> {
    corpo(rs, eh_nativo(rs)) + "\n"@ + resumo_forge(rs) + resumo_ddc(rs) + secao_de_grupos(rs)
}

/// Appends the first non-blank line of `s`, truncated to `n` characters.
fn escrever_primeira_linha(out: &mut String, s: &Saida, n: usize)
    ensures
        final(out)@ == old(out)@ + truncado(primeira_nao_branca(s.stderr@), n as nat),
{
    let l = s.primeira_linha_stderr();
    let cs = caracteres(l.as_str());
    let t = truncar(cs.as_slice(), n);
    anexar(out, t.as_slice());
}

fn escrever_parte_dart(out: &mut String, r: &Resultado)
    ensures
        final(out)@ == old(out)@ + parte_dart(*r),
{
    if r.dart.codigo != 0 {
        out.append("DART!  ");
        out.append(r.programa.nome.as_str());
        out.append("  (dart run saiu com ");
        escrever_decimal_com_sinal(out, r.dart.codigo as i64);
        out.append(": ");
        escrever_primeira_linha(out, &r.dart, 90);
        out.append(")\n");
    }
}

fn escrever_parte_ddc(out: &mut String, r: &Resultado)
    ensures
        final(out)@ == old(out)@ + parte_ddc(*r),
{
    match r.ddc_vs_dart() {
        Some(d) => {
            if r.programa.diverge_ddc.is_none() {
                out.append("DDC≠VM ");
                out.append(r.programa.nome.as_str());
                out.append("  (");
                let desc = descrever(d);
                out.append(desc.as_str());
                out.append(")\n");
                let cols = vec![("dart run", r.dart.stdout.as_str()), ("ddc+node", r.ddc.stdout.as_str())];
                assert(colunas_vistas(cols@) =~= seq![("dart run"@, r.dart.stdout@), ("ddc+node"@, r.ddc.stdout@)]);
                let tabela = lado_a_lado(cols.as_slice(), foco(d));
                out.append(tabela.as_str());
                out.append("       códigos: dart=");
                escrever_decimal_com_sinal(out, r.dart.codigo as i64);
                out.append(" ddc=");
                escrever_decimal_com_sinal(out, r.ddc.codigo as i64);
                out.append("  stderr ddc: ");
                escrever_primeira_linha(out, &r.ddc, 80);
                out.append("\n");
            }
        },
        None => {
            match &r.programa.diverge_ddc {
                Some(m) => {
                    out.append("AVISO  ");
                    out.append(r.programa.nome.as_str());
                    out.append("  cabeçalho declara divergência DDC mas as saídas batem: ");
                    out.append(m.as_str());
                    out.append("\n");
                },
                None => {},
            }
        },
    }
}

/// The text of a failure of DartForge, past its first line.
pub open spec fn detalhe_da_falha(r: Resultado, f: Saida, d: Divergencia, nativo: bool) -> Seq<char> {
    lado_a_lado_de(colunas_da_falha(r, f, nativo), foco_de(d) as nat) + "       "@
        + codigos_da_falha(r, f, nativo) + "\n"@ + "       stderr: "@ + chave_do_grupo(f) + "\n"@
}

fn escrever_codigos(out: &mut String, r: &Resultado, f: &Saida, nativo: bool)
    ensures
        final(out)@ == old(out)@ + codigos_da_falha(*r, *f, nativo),
{
    out.append("códigos: dart=");
    escrever_decimal_com_sinal(out, r.dart.codigo as i64);
    if !nativo {
        out.append(" ddc=");
        escrever_decimal_com_sinal(out, r.ddc.codigo as i64);
    }
    out.append(" forge=");
    escrever_decimal_com_sinal(out, f.codigo as i64);
}

fn escrever_detalhe_da_falha(
    out: &mut String,
    r: &Resultado,
    f: &Saida,
    d: Divergencia,
    nativo: bool,
) -> (chave: Vec<char>)
    ensures
        final(out)@ == old(out)@ + detalhe_da_falha(*r, *f, d, nativo),
        chave@ == chave_do_grupo(*f),
{
    let ghost inicio = out@;
    let tabela = if nativo {
        let cols = vec![("dart run", r.dart.stdout.as_str()), ("dartforge nativo", f.stdout.as_str())];
        assert(colunas_vistas(cols@) =~= colunas_da_falha(*r, *f, nativo));
        lado_a_lado(cols.as_slice(), foco(d))
    } else {
        let cols = vec![
            ("dart run", r.dart.stdout.as_str()),
            ("ddc+node", r.ddc.stdout.as_str()),
            ("dartforge", f.stdout.as_str()),
        ];
        assert(colunas_vistas(cols@) =~= colunas_da_falha(*r, *f, nativo));
        lado_a_lado(cols.as_slice(), foco(d))
    };
    out.append(tabela.as_str());
    out.append("       ");
    escrever_codigos(out, r, f, nativo);
    out.append("\n");
    let ghost meio = out@;
    assert(meio =~= inicio + lado_a_lado_de(colunas_da_falha(*r, *f, nativo), foco_de(d) as nat)
        + "       "@ + codigos_da_falha(*r, *f, nativo) + "\n"@);
    let chave_completa = chave_de_falha(f);
    let cc = caracteres(chave_completa.as_str());
    let chave = truncar(cc.as_slice(), 120);
    out.append("       stderr: ");
    anexar(out, chave.as_slice());
    out.append("\n");
    assert(out@ =~= meio + "       stderr: "@ + chave_do_grupo(*f) + "\n"@);
    chave
}

/// Appends what the report says of DartForge for one program, and gives the
/// key of the group of its failure, when it failed.
#[verifier::spinoff_prover]
#[verifier::rlimit(40)]
fn escrever_parte_forge(out: &mut String, r: &Resultado, nativo: bool) -> (chave: Option<Vec<char>>)
    ensures
        final(out)@ == old(out)@ + parte_forge(*r, nativo),
        match chave {
            Some(c) => r.forge matches Some(f) && forge_diverge(*r) is Some && c@ == chave_do_grupo(f),
            None => !(r.forge is Some && forge_diverge(*r) is Some),
        },
{
    let f = match &r.forge {
        Some(f) => f,
        None => {
            return None;
        },
    };
    match r.forge_vs_referencia() {
        None => {
            out.append("ok     ");
            out.append(r.programa.nome.as_str());
            out.append("\n");
            None
        },
        Some(d) => {
            out.append("FALHA  ");
            out.append(r.programa.nome.as_str());
            out.append("  (");
            let desc = descrever(d);
            out.append(desc.as_str());
            out.append(")\n");
            let ghost meio = out@;
            let chave = escrever_detalhe_da_falha(out, r, f, d, nativo);
            assert(out@ =~= meio + detalhe_da_falha(*r, *f, d, nativo));
            Some(chave)
        },
    }
}

/// The groups held in two parallel vectors: keys and names.
pub open spec fn grupos_vistos(chaves: Seq<Vec<char>>, membros: Seq<Vec<Vec<char>>>) -> Seq<
    (Seq<char>, Seq<Seq<char>>),
> {
    Seq::new(chaves.len(), |k: int| (chaves[k]@, vistas(membros[k]@)))
}

proof fn lemma_indice_do_grupo(
    gs: Seq<(Seq<char>, Seq<Seq<char>>)>,
    chave: Seq<char>,
    i: int,
    r: int,
)
    requires
        0 <= i <= r <= gs.len(),
        forall|k: int| i <= k < r ==> (#[trigger] gs[k]).0 != chave,
        r < gs.len() ==> gs[r].0 == chave,
    ensures
        indice_do_grupo(gs, chave, i) == r,
    decreases r - i,
{
    if i < r {
        lemma_indice_do_grupo(gs, chave, i + 1, r);
    }
}

/// Adds `nome` to the group of `chave`.
fn agrupar_falha(
    chaves: &mut Vec<Vec<char>>,
    membros: &mut Vec<Vec<Vec<char>>>,
    chave: Vec<char>,
    nome: Vec<char>,
)
    requires
        old(chaves)@.len() == old(membros)@.len(),
    ensures
        final(chaves)@.len() == final(membros)@.len(),
        grupos_vistos(final(chaves)@, final(membros)@) == adicionar(
            grupos_vistos(old(chaves)@, old(membros)@),
            chave@,
            nome@,
        ),
{
    let ghost gs = grupos_vistos(chaves@, membros@);
    let mut k: usize = 0;
    while k < chaves.len() && !iguais(chaves[k].as_slice(), chave.as_slice())
        invariant
            k <= chaves@.len(),
            gs == grupos_vistos(chaves@, membros@),
            forall|j: int| 0 <= j < k ==> (#[trigger] gs[j]).0 != chave@,
        decreases chaves.len() - k,
    {
        k = k + 1;
    }
    proof {
        lemma_indice_do_grupo(gs, chave@, 0, k as int);
    }
    if k < chaves.len() {
        let mut m = membros.remove(k);
        let ghost antes = m@;
        m.push(nome);
        membros.insert(k, m);
        proof {
            assert(vistas(m@) =~= vistas(antes).push(nome@));
            assert(grupos_vistos(chaves@, membros@) =~= gs.update(
                k as int,
                (gs[k as int].0, gs[k as int].1.push(nome@)),
            ));
        }
    } else {
        let ghost c = chave@;
        let ghost n = nome@;
        chaves.push(chave);
        let mut novo: Vec<Vec<char>> = Vec::new();
        novo.push(nome);
        membros.push(novo);
        proof {
            assert(vistas(novo@) =~= seq![n]);
            assert(grupos_vistos(chaves@, membros@) =~= gs.push((c, seq![n])));
        }
    }
}

/// The groups in the order of the indices.
pub open spec fn por_indices(ordem: Seq<usize>, gs: Seq<(Seq<char>, Seq<Seq<char>>)>) -> Seq<
    (Seq<char>, Seq<Seq<char>>),
> {
    ordem.map_values(|k: usize| gs[k as int])
}

proof fn lemma_posicao_do_grupo(
    s: Seq<(Seq<char>, Seq<Seq<char>>)>,
    g: (Seq<char>, Seq<Seq<char>>),
    i: int,
    r: int,
)
    requires
        0 <= i <= r <= s.len(),
        forall|k: int| i <= k < r ==> !grupo_antes(g, #[trigger] s[k]),
        r < s.len() ==> grupo_antes(g, s[r]),
    ensures
        posicao_do_grupo(s, g, i) == r,
    decreases r - i,
{
    if i < r {
        lemma_posicao_do_grupo(s, g, i + 1, r);
    }
}

/// The indices of the groups, in the order of their priority.
fn ordenar_indices(chaves: &Vec<Vec<char>>, membros: &Vec<Vec<Vec<char>>>) -> (ordem: Vec<usize>)
    requires
        chaves@.len() == membros@.len(),
    ensures
        forall|x: int| 0 <= x < ordem@.len() ==> ordem@[x] < chaves@.len(),
        por_indices(ordem@, grupos_vistos(chaves@, membros@)) == ordenar_grupos(
            grupos_vistos(chaves@, membros@),
        ),
{
    let ghost gs = grupos_vistos(chaves@, membros@);
    let mut ordem: Vec<usize> = Vec::new();
    let mut t: usize = 0;
    assert(gs.take(0) =~= Seq::<(Seq<char>, Seq<Seq<char>>)>::empty());
    assert(por_indices(ordem@, gs) =~= Seq::<(Seq<char>, Seq<Seq<char>>)>::empty());
    while t < chaves.len()
        invariant
            t <= chaves@.len(),
            chaves@.len() == membros@.len(),
            gs == grupos_vistos(chaves@, membros@),
            forall|x: int| 0 <= x < ordem@.len() ==> ordem@[x] < t,
            por_indices(ordem@, gs) == ordenar_grupos(gs.take(t as int)),
        decreases chaves.len() - t,
    {
        let ghost s = por_indices(ordem@, gs);
        let mut j: usize = 0;
        while j < ordem.len() && !(membros[t].len() > membros[ordem[j]].len() || (
        membros[t].len() == membros[ordem[j]].len() && crate::texto::precede(
            chaves[t].as_slice(),
            chaves[ordem[j]].as_slice(),
        )))
            invariant
                j <= ordem@.len(),
                t < chaves@.len(),
                chaves@.len() == membros@.len(),
                gs == grupos_vistos(chaves@, membros@),
                forall|x: int| 0 <= x < ordem@.len() ==> ordem@[x] < t,
                s == por_indices(ordem@, gs),
                forall|k: int| 0 <= k < j ==> !grupo_antes(gs[t as int], #[trigger] s[k]),
            decreases ordem.len() - j,
        {
            proof {
                assert(s[j as int] == gs[ordem@[j as int] as int]);
                assert(vistas(membros@[t as int]@).len() == membros@[t as int]@.len());
                assert(vistas(membros@[ordem@[j as int] as int]@).len() == membros@[ordem@[j as int] as int]@.len());
            }
            j = j + 1;
        }
        proof {
            if j < ordem@.len() {
                assert(s[j as int] == gs[ordem@[j as int] as int]);
                assert(vistas(membros@[t as int]@).len() == membros@[t as int]@.len());
                assert(vistas(membros@[ordem@[j as int] as int]@).len() == membros@[ordem@[j as int] as int]@.len());
            }
            lemma_posicao_do_grupo(s, gs[t as int], 0, j as int);
            assert(gs.take(t + 1).drop_last() =~= gs.take(t as int));
            assert(gs.take(t + 1).last() == gs[t as int]);
        }
        ordem.insert(j, t);
        proof {
            assert(por_indices(ordem@, gs) =~= s.insert(j as int, gs[t as int]));
        }
        t = t + 1;
    }
    assert(gs.take(chaves@.len() as int) =~= gs);
    ordem
}

/// Appends the lines of the groups, in the given order.
fn escrever_grupos(
    out: &mut String,
    chaves: &Vec<Vec<char>>,
    membros: &Vec<Vec<Vec<char>>>,
    ordem: &Vec<usize>,
)
    requires
        chaves@.len() == membros@.len(),
        forall|x: int| 0 <= x < ordem@.len() ==> ordem@[x] < chaves@.len(),
    ensures
        final(out)@ == old(out)@ + texto_dos_grupos(
            por_indices(ordem@, grupos_vistos(chaves@, membros@)),
        ),
{
    let ghost gs = grupos_vistos(chaves@, membros@);
    let ghost lista = por_indices(ordem@, gs);
    let ghost inicio = out@;
    let mut x: usize = 0;
    assert(lista.take(0) =~= Seq::<(Seq<char>, Seq<Seq<char>>)>::empty());
    while x < ordem.len()
        invariant
            x <= ordem@.len(),
            chaves@.len() == membros@.len(),
            forall|y: int| 0 <= y < ordem@.len() ==> ordem@[y] < chaves@.len(),
            gs == grupos_vistos(chaves@, membros@),
            lista == por_indices(ordem@, gs),
            out@ == inicio + texto_dos_grupos(lista.take(x as int)),
        decreases ordem.len() - x,
    {
        let k = ordem[x];
        let ghost antes = out@;
        out.append("  ");
        let tamanho = crate::texto::decimal_de(membros[k].len() as u64);
        escrever_alinhado_direita(out, tamanho.as_slice(), 4);
        out.append("  ");
        anexar(out, chaves[k].as_slice());
        out.append("\n");
        out.append("        ");
        escrever_juntos(out, membros[k].as_slice(), ", ");
        out.append("\n");
        proof {
            let g = lista[x as int];
            assert(g == gs[k as int]);
            assert(g.1.len() == membros@[k as int]@.len());
            assert(lista.take(x + 1).drop_last() =~= lista.take(x as int));
            assert(lista.take(x + 1).last() == g);
            assert(out@ =~= antes + "  "@ + alinhar_direita(decimal(g.1.len()), 4) + "  "@ + g.0
                + "\n"@ + "        "@ + juntar(g.1, ", "@) + "\n"@);
        }
        x = x + 1;
    }
    assert(lista.take(ordem@.len() as int) =~= lista);
}

/// What the pass over the results gathers besides the text.
struct Apuracao {
    com_forge: bool,
    ok: usize,
    avisos: usize,
    declarados: usize,
    chaves: Vec<Vec<char>>,
    membros: Vec<Vec<Vec<char>>>,
}

/// The state after the results `rs`.
spec fn apurado(a: Apuracao, rs: Seq<Resultado>, nativo: bool) -> bool {
    &&& a.com_forge == algum_forge(rs)
    &&& a.ok == conta_ok(rs)
    &&& a.ok <= rs.len()
    &&& a.avisos == (if nativo {
        0
    } else {
        conta_avisos(rs)
    })
    &&& a.declarados == conta_declarados(rs)
    &&& a.avisos + a.declarados <= rs.len()
    &&& a.chaves@.len() == a.membros@.len()
    &&& grupos_vistos(a.chaves@, a.membros@) == agrupar(falhas(rs))
}

/// Counts and groups one more result.
fn apurar(a: &mut Apuracao, r: &Resultado, chave: Option<Vec<char>>, nativo: bool, Ghost(rs): Ghost<Seq<Resultado>>)
    requires
        apurado(*old(a), rs, nativo),
        rs.len() < usize::MAX,
        match chave {
            Some(c) => r.forge matches Some(f) && forge_diverge(*r) is Some && c@ == chave_do_grupo(f),
            None => !(r.forge is Some && forge_diverge(*r) is Some),
        },
    ensures
        apurado(*final(a), rs.push(*r), nativo),
{
    let ghost t = rs.push(*r);
    proof {
        assert(t.drop_last() =~= rs);
        assert(t.last() == *r);
    }
    if r.forge.is_some() {
        a.com_forge = true;
    }
    if r.ok() {
        a.ok = a.ok + 1;
    }
    let declarado = r.programa.diverge_ddc.is_some();
    if !nativo && !declarado && r.ddc_vs_dart().is_some() {
        a.avisos = a.avisos + 1;
    }
    if declarado {
        a.declarados = a.declarados + 1;
    }
    proof {
        let ghost fo = r.forge;
        match fo {
            Some(f) => if forge_diverge(*r) is Some {
                assert(falhas(t).drop_last() =~= falhas(rs));
                assert(falhas(t).last() == (chave_do_grupo(f), r.programa.nome@));
            } else {
                assert(falhas(t) =~= falhas(rs));
            },
            None => {
                assert(falhas(t) =~= falhas(rs));
            },
        }
    }
    match chave {
        Some(c) => {
            let nome = caracteres(r.programa.nome.as_str());
            agrupar_falha(&mut a.chaves, &mut a.membros, c, nome);
        },
        None => {},
    }
}

/// The lines of the programs, with what the summary needs.
fn percorrer(resultados: &[Resultado], nativo: bool) -> (r: (String, Apuracao))
    ensures
        r.0@ == corpo(resultados@, nativo),
        apurado(r.1, resultados@, nativo),
{
    let ghost rs = resultados@;
    let mut out = String::new();
    let mut a = Apuracao {
        com_forge: false,
        ok: 0,
        avisos: 0,
        declarados: 0,
        chaves: Vec::new(),
        membros: Vec::new(),
    };
    let mut i: usize = 0;
    assert(rs.take(0) =~= Seq::<Resultado>::empty());
    assert(grupos_vistos(a.chaves@, a.membros@) =~= Seq::<(Seq<char>, Seq<Seq<char>>)>::empty());
    while i < resultados.len()
        invariant
            i <= rs.len(),
            rs == resultados@,
            out@ == corpo(rs.take(i as int), nativo),
            apurado(a, rs.take(i as int), nativo),
        decreases resultados.len() - i,
    {
        let r = &resultados[i];
        let ghost antes = out@;
        proof {
            assert(rs.take(i + 1) =~= rs.take(i as int).push(*r));
            assert(rs.take(i + 1).drop_last() =~= rs.take(i as int));
        }
        escrever_parte_dart(&mut out, r);
        if !nativo {
            escrever_parte_ddc(&mut out, r);
        }
        let chave = escrever_parte_forge(&mut out, r, nativo);
        assert(out@ =~= antes + bloco(*r, nativo));
        apurar(&mut a, r, chave, nativo, Ghost(rs.take(i as int)));
        i = i + 1;
    }
    assert(rs.take(rs.len() as int) =~= rs);
    (out, a)
}

/// The report: one line per program, details of the failures, a summary and
/// the failures of DartForge grouped by the first line of their stderr
/// (priority = size of the group).
pub fn relatorio(resultados: &[Resultado]) -> (r: String)
    ensures
        r@ == relatorio_de(resultados@),
{
    let ghost rs = resultados@;
    let nativo = resultados.len() > 0 && resultados[0].nativo;
    let (mut out, a) = percorrer(resultados, nativo);
    let total = resultados.len();
    out.append("\n");
    let ghost p1 = out@;
    escrever_resumo_forge(&mut out, &a, nativo, total, Ghost(rs));
    let ghost p2 = out@;
    escrever_resumo_ddc(&mut out, &a, nativo, total, Ghost(rs));
    let ghost p3 = out@;
    if a.chaves.len() > 0 {
        out.append("\nFalhas por primeira linha do stderr do DartForge (prioridade = tamanho do grupo):\n");
        let ordem = ordenar_indices(&a.chaves, &a.membros);
        escrever_grupos(&mut out, &a.chaves, &a.membros, &ordem);
    }
    proof {
        lemma_agrupar_vazio(falhas(rs));
        assert(out@ =~= p3 + secao_de_grupos(rs));
    }
    out
}

fn escrever_resumo_forge(out: &mut String, a: &Apuracao, nativo: bool, total: usize, Ghost(rs): Ghost<Seq<Resultado>>)
    requires
        apurado(*a, rs, nativo),
        nativo == eh_nativo(rs),
        total == rs.len(),
    ensures
        final(out)@ == old(out)@ + resumo_forge(rs),
{
    if a.com_forge {
        if nativo {
            out.append("DartForge Nativo");
        } else {
            out.append("DartForge");
        }
        out.append(": ");
        escrever_decimal(out, a.ok as u64);
        out.append("/");
        escrever_decimal(out, total as u64);
        out.append(" ok\n");
    }
}

fn escrever_resumo_ddc(out: &mut String, a: &Apuracao, nativo: bool, total: usize, Ghost(rs): Ghost<Seq<Resultado>>)
    requires
        apurado(*a, rs, nativo),
        nativo == eh_nativo(rs),
        total == rs.len(),
    ensures
        final(out)@ == old(out)@ + resumo_ddc(rs),
{
    if !nativo {
        out.append("DDC×VM: ");
        escrever_decimal(out, (total - a.avisos - a.declarados) as u64);
        out.append("/");
        escrever_decimal(out, total as u64);
        out.append(" batem (sem contar ");
        escrever_decimal(out, a.declarados as u64);
        out.append(" com divergência declarada)\n");
    }
}

/// There are groups exactly when there are failures.
proof fn lemma_agrupar_vazio(ps: Seq<(Seq<char>, Seq<char>)>)
    ensures
        (agrupar(ps).len() == 0) == (ps.len() == 0),
    decreases ps.len(),
{
    if ps.len() > 0 {
        lemma_agrupar_vazio(ps.drop_last());
    }
}

} // verus!
