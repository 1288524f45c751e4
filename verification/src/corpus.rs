//! The programs of the corpus and the header that each one declares.
//!
//! Headers recognised in the first lines of the entry file (line comments,
//! in any order):
//!
//! * `// @dart=x.y`: the official marker of the language version;
//! * `// requer-dart: x.y`: the current version the program needs;
//! * `// erro-de-compilacao`: a negative program, to be refused by everyone;
//! * `// experimentos: a,b`: `--enable-experiment=a,b`;
//! * `// diverge-ddc: motivo`: the web prints, by definition, something else.
//!
//! Reading directories and files is the application's part; here the texts
//! it read become programs, and the programs are filtered, marked and ordered.
use vstd::prelude::*;

use crate::texto::{
    aparar, aparar_inicio, caracteres, comeca_com, comeca_str, contem, copiar, digitos_a_partir,
    digitos_desde, dividir_linhas, iguais, inteiro_sem_sinal, lex_menor, linhas, precede,
    primeiro, procurar, sem_espaco_final, sem_espaco_inicial, sem_espacos, so_digitos,
    texto_de, valor_ate, valor_decimal, vistas, aparar_fim, lemma_primeiro, lemma_primeiro_e,
    ler_sem_sinal, lemma_lex_transitiva, lemma_lex_assimetrica,
};

verus! {

// ---------------------------------------------------------------- versions

/// A Dart language version `major.minor`.
#[derive(Debug, Clone, Copy, PartialEq, Eq, Structural)]
pub struct LanguageVersion {
    pub major: u32,
    pub minor: u32,
}

/// The version written in `s`: two runs of ASCII digits around one `'.'`,
/// with whitespace around the whole allowed, each part fitting in `u32`.
pub open spec fn versao_em(s: Seq<char>) -> Option<(nat, nat)> {
    let t = aparar(s);
    let k = primeiro(t, 0, |c: char| c == '.');
    let a = t.take(k);
    let b = t.skip(k + 1);
    if k < t.len() && a.len() > 0 && so_digitos(a) && b.len() > 0 && so_digitos(b)
        && valor_decimal(a) <= u32::MAX && valor_decimal(b) <= u32::MAX {
        Some((valor_decimal(a), valor_decimal(b)))
    } else {
        None
    }
}

pub open spec fn versao_de(v: Option<LanguageVersion>) -> Option<(nat, nat)> {
    match v {
        Some(l) => Some((l.major as nat, l.minor as nat)),
        None => None,
    }
}

impl LanguageVersion {
    pub fn new(major: u32, minor: u32) -> (r: LanguageVersion)
        ensures
            r.major == major,
            r.minor == minor,
    {
        LanguageVersion { major, minor }
    }

    /// The floor of the corpus: 3.6.
    pub fn piso() -> (r: LanguageVersion)
        ensures
            r.major == 3,
            r.minor == 6,
    {
        LanguageVersion { major: 3, minor: 6 }
    }

    /// Reads `x.y` (surrounding whitespace allowed, both parts decimal and
    /// within `u32`). This is the library's own reading of a version: the
    /// Dart frontend's parser of versions is not a dependency of this crate,
    /// so it is not called, and its behaviour is not claimed here.
    pub fn parse(s: &str) -> (r: Option<LanguageVersion>)
        ensures
            versao_de(r) == versao_em(s@),
    {
        let cs = caracteres(s);
        ler_versao(cs.as_slice())
    }
}

/// Reads `x.y` from characters.
pub fn ler_versao(s: &[char]) -> (r: Option<LanguageVersion>)
    ensures
        versao_de(r) == versao_em(s@),
{
    let t = sem_espacos(s);
    let mut k: usize = 0;
    while k < t.len() && t[k] != '.'
        invariant
            k <= t@.len(),
            forall|j: int| 0 <= j < k ==> t@[j] != '.',
        decreases t.len() - k,
    {
        k = k + 1;
    }
    proof {
        lemma_primeiro_e(t@, 0, k as int, |c: char| c == '.');
    }
    if k == t.len() {
        return None;
    }
    let a = copiar(t.as_slice(), 0, k);
    let b = copiar(t.as_slice(), k + 1, t.len());
    assert(a@ =~= t@.take(k as int));
    assert(b@ =~= t@.skip(k + 1));
    if a.len() == 0 || b.len() == 0 || !crate::texto::todos_digitos(a.as_slice())
        || !crate::texto::todos_digitos(b.as_slice()) {
        return None;
    }
    match (valor_ate(a.as_slice(), 4294967295u64), valor_ate(b.as_slice(), 4294967295u64)) {
        (Some(x), Some(y)) => Some(LanguageVersion { major: x as u32, minor: y as u32 }),
        _ => None,
    }
}

// ---------------------------------------------------------------- header

/// The text of a line comment (`//` after trimming), without leading whitespace.
pub open spec fn comentario(l: Seq<char>) -> Option<Seq<char>> {
    let t = aparar(l);
    if comeca_com(t, "//"@) {
        Some(aparar_inicio(t.skip(2)))
    } else {
        None
    }
}

pub open spec fn eh_diverge(r: Seq<char>) -> bool {
    comeca_com(r, "diverge-ddc:"@)
}

pub open spec fn eh_requer(r: Seq<char>) -> bool {
    !eh_diverge(r) && comeca_com(r, "requer-dart:"@)
}

pub open spec fn eh_erro(r: Seq<char>) -> bool {
    !eh_diverge(r) && !eh_requer(r) && aparar_fim(r) == "erro-de-compilacao"@
}

pub open spec fn eh_experimentos(r: Seq<char>) -> bool {
    !eh_diverge(r) && !eh_requer(r) && !eh_erro(r) && comeca_com(r, "experimentos:"@)
}

/// The pieces of `s.skip(i)` between the commas (`str::split(',')`).
pub open spec fn partes_desde(s: Seq<char>, i: int) -> Seq<Seq<char>>
    decreases s.len() + 1 - i,
{
    if i < 0 || i > s.len() {
        Seq::empty()
    } else {
        let k = primeiro(s, i, |c: char| c == ',');
        if k >= s.len() {
            seq![s.subrange(i, s.len() as int)]
        } else {
            proof {
                lemma_primeiro(s, i, |c: char| c == ',');
            }
            seq![s.subrange(i, k)] + partes_desde(s, k + 1)
        }
    }
}

/// The trimmed, non-empty items of a list.
pub open spec fn itens(ps: Seq<Seq<char>>) -> Seq<Seq<char>>
    decreases ps.len(),
{
    if ps.len() == 0 {
        Seq::empty()
    } else {
        let t = aparar(ps.last());
        itens(ps.drop_last()) + if t.len() > 0 {
            seq![t]
        } else {
            Seq::empty()
        }
    }
}

/// `// diverge-ddc:` of the first line that declares it, trimmed.
pub open spec fn diverge_de(ls: Seq<Seq<char>>) -> Option<Seq<char>>
    decreases ls.len(),
{
    if ls.len() == 0 {
        None
    } else {
        match diverge_de(ls.drop_last()) {
            Some(m) => Some(m),
            None => match comentario(ls.last()) {
                Some(r) => if eh_diverge(r) {
                    Some(aparar(r.skip(12)))
                } else {
                    None
                },
                None => None,
            },
        }
    }
}

/// `// requer-dart:` of the first line whose version reads.
pub open spec fn requer_de(ls: Seq<Seq<char>>) -> Option<(nat, nat)>
    decreases ls.len(),
{
    if ls.len() == 0 {
        None
    } else {
        match requer_de(ls.drop_last()) {
            Some(v) => Some(v),
            None => match comentario(ls.last()) {
                Some(r) => if eh_requer(r) {
                    versao_em(r.skip(12))
                } else {
                    None
                },
                None => None,
            },
        }
    }
}

/// Some line reads `// erro-de-compilacao`.
pub open spec fn erro_de(ls: Seq<Seq<char>>) -> bool
    decreases ls.len(),
{
    if ls.len() == 0 {
        false
    } else {
        erro_de(ls.drop_last()) || match comentario(ls.last()) {
            Some(r) => eh_erro(r),
            None => false,
        }
    }
}

/// The experiments of every `// experimentos:` line, in order.
pub open spec fn experimentos_de(ls: Seq<Seq<char>>) -> Seq<Seq<char>>
    decreases ls.len(),
{
    if ls.len() == 0 {
        Seq::empty()
    } else {
        experimentos_de(ls.drop_last()) + match comentario(ls.last()) {
            Some(r) => if eh_experimentos(r) {
                itens(partes_desde(r.skip(13), 0))
            } else {
                Seq::empty()
            },
            None => Seq::empty(),
        }
    }
}

/// The lines where headers are looked for: the first twenty.
pub open spec fn linhas_do_cabecalho(fonte: Seq<char>) -> Seq<Seq<char>> {
    let ls = linhas(fonte);
    if ls.len() <= 20 {
        ls
    } else {
        ls.take(20)
    }
}

/// What the header of a program declares.
#[derive(Debug, Clone, PartialEq, Eq)]
pub struct Cabecalho {
    pub diverge_ddc: Option<String>,
    pub requer: Option<LanguageVersion>,
    pub erro_compilacao: bool,
    pub experimentos: Vec<String>,
}

impl Default for Cabecalho {
    /// The header of a program that declares nothing.
    fn default() -> (r: Cabecalho)
        ensures
            r.diverge_ddc is None,
            r.requer is None,
            !r.erro_compilacao,
            r.experimentos@.len() == 0,
    {
        Cabecalho { diverge_ddc: None, requer: None, erro_compilacao: false, experimentos: Vec::new() }
    }
}

pub open spec fn opcao_de_texto(o: Option<String>) -> Option<Seq<char>> {
    match o {
        Some(s) => Some(s@),
        None => None,
    }
}

pub open spec fn textos(v: Seq<String>) -> Seq<Seq<char>> {
    v.map_values(|s: String| s@)
}

impl Cabecalho {
    /// The header read from the lines `ls`.
    pub open spec fn lido_de(self, ls: Seq<Seq<char>>) -> bool {
        &&& opcao_de_texto(self.diverge_ddc) == diverge_de(ls)
        &&& versao_de(self.requer) == requer_de(ls)
        &&& self.erro_compilacao == erro_de(ls)
        &&& textos(self.experimentos@) == experimentos_de(ls)
    }
}

/// The trimmed, non-empty items of the comma-separated list `s`.
fn itens_da_lista(s: &[char]) -> (r: Vec<String>)
    ensures
        textos(r@) == itens(partes_desde(s@, 0)),
{
    let mut r: Vec<String> = Vec::new();
    let mut i: usize = 0;
    let ghost ps = partes_desde(s@, 0);
    // `ps` is the pieces so far followed by the pieces from `i`.
    let ghost mut feitas: Seq<Seq<char>> = Seq::empty();
    loop
        invariant
            i <= s@.len(),
            ps == partes_desde(s@, 0),
            ps == feitas + partes_desde(s@, i as int),
            textos(r@) == itens(feitas),
        decreases s@.len() - i,
    {
        let mut k: usize = i;
        while k < s.len() && s[k] != ','
            invariant
                i <= k <= s@.len(),
                forall|j: int| i <= j < k ==> s@[j] != ',',
            decreases s.len() - k,
        {
            k = k + 1;
        }
        proof {
            lemma_primeiro_e(s@, i as int, k as int, |c: char| c == ',');
        }
        let parte = copiar(s, i, k);
        let t = sem_espacos(parte.as_slice());
        let ghost antes = textos(r@);
        let ghost novas = feitas.push(parte@);
        proof {
            assert(novas.drop_last() =~= feitas);
            assert(novas.last() == parte@);
        }
        if t.len() > 0 {
            r.push(texto_de(t.as_slice()));
            assert(textos(r@) =~= antes + seq![t@]);
            assert(itens(novas) == itens(feitas) + seq![t@]);
        } else {
            assert(textos(r@) =~= antes + Seq::<Seq<char>>::empty());
            assert(itens(novas) == itens(feitas) + Seq::<Seq<char>>::empty());
        }
        proof {
            feitas = novas;
        }
        if k == s.len() {
            assert(partes_desde(s@, i as int) == seq![s@.subrange(i as int, s@.len() as int)]);
            assert(ps =~= feitas);
            assert(textos(r@) == itens(feitas));
            assert(textos(r@) == itens(partes_desde(s@, 0)));
            return r;
        }
        assert(partes_desde(s@, i as int) == seq![s@.subrange(i as int, k as int)]
            + partes_desde(s@, k + 1));
        assert(ps =~= feitas + partes_desde(s@, k + 1));
        i = k + 1;
    }
}

/// The text of a line comment, without leading whitespace.
fn ler_comentario(l: &[char]) -> (r: Option<Vec<char>>)
    ensures
        match r {
            Some(v) => comentario(l@) == Some(v@),
            None => comentario(l@) is None,
        },
{
    let t = sem_espacos(l);
    proof {
        reveal_strlit("//");
    }
    if comeca_str(t.as_slice(), "//") {
        let resto = copiar(t.as_slice(), 2, t.len());
        assert(resto@ =~= t@.skip(2));
        Some(sem_espaco_inicial(resto.as_slice()))
    } else {
        None
    }
}

/// Appends `novos` to `v`.
fn estender(v: &mut Vec<String>, novos: &Vec<String>)
    ensures
        textos(final(v)@) == textos(old(v)@) + textos(novos@),
{
    let ghost antes = textos(v@);
    let mut j: usize = 0;
    while j < novos.len()
        invariant
            j <= novos@.len(),
            textos(v@) == antes + textos(novos@).take(j as int),
        decreases novos.len() - j,
    {
        let ghost anterior = v@;
        let x = novos[j].clone();
        v.push(x);
        assert(textos(novos@)[j as int] == novos@[j as int]@);
        assert(textos(novos@).take(j + 1) =~= textos(novos@).take(j as int).push(x@));
        assert(textos(v@) =~= textos(anterior).push(x@));
        j = j + 1;
    }
    assert(textos(novos@).take(novos@.len() as int) =~= textos(novos@));
}

/// Reads the harness headers in the first lines of the file.
pub fn ler_cabecalho(fonte: &str) -> (c: Cabecalho)
    ensures
        c.lido_de(linhas_do_cabecalho(fonte@)),
{
    let cs = caracteres(fonte);
    let ls = dividir_linhas(cs.as_slice());
    let n: usize = if ls.len() <= 20 { ls.len() } else { 20 };
    let ghost todas = vistas(ls@);
    let ghost alvo = linhas_do_cabecalho(fonte@);
    assert(alvo =~= todas.take(n as int));
    let mut c = Cabecalho {
        diverge_ddc: None,
        requer: None,
        erro_compilacao: false,
        experimentos: Vec::new(),
    };
    let mut i: usize = 0;
    assert(todas.take(0) =~= Seq::<Seq<char>>::empty());
    assert(textos(c.experimentos@) =~= Seq::<Seq<char>>::empty());
    while i < n
        invariant
            n <= ls@.len(),
            i <= n,
            todas == vistas(ls@),
            alvo == todas.take(n as int),
            c.lido_de(todas.take(i as int)),
        decreases n - i,
    {
        let ghost pref = todas.take(i as int);
        let ghost prox = todas.take(i + 1);
        proof {
            reveal_strlit("diverge-ddc:");
            reveal_strlit("requer-dart:");
            reveal_strlit("experimentos:");
            assert(prox.drop_last() =~= pref);
            assert(prox.last() == ls@[i as int]@);
        }
        match ler_comentario(ls[i].as_slice()) {
            None => {},
            Some(r) => {
                let rs = r.as_slice();
                if comeca_str(rs, "diverge-ddc:") {
                    if c.diverge_ddc.is_none() {
                        let m = copiar(rs, 12, r.len());
                        assert(m@ =~= r@.skip(12));
                        let mt = sem_espacos(m.as_slice());
                        c.diverge_ddc = Some(texto_de(mt.as_slice()));
                    }
                } else if comeca_str(rs, "requer-dart:") {
                    if c.requer.is_none() {
                        let v = copiar(rs, 12, r.len());
                        assert(v@ =~= r@.skip(12));
                        c.requer = ler_versao(v.as_slice());
                    }
                } else if iguais(sem_espaco_final(rs).as_slice(), caracteres("erro-de-compilacao").as_slice()) {
                    c.erro_compilacao = true;
                } else if comeca_str(rs, "experimentos:") {
                    let e = copiar(rs, 13, r.len());
                    assert(e@ =~= r@.skip(13));
                    let novos = itens_da_lista(e.as_slice());
                    estender(&mut c.experimentos, &novos);
                }
            },
        }
        i = i + 1;
        assert(c.lido_de(prox));
    }
    c
}

/// Reads the marker `// diverge-ddc: motivo` in the first lines of the file.
pub fn ler_diverge_ddc(fonte: &str) -> (r: Option<String>)
    ensures
        opcao_de_texto(r) == diverge_de(linhas_do_cabecalho(fonte@)),
{
    ler_cabecalho(fonte).diverge_ddc
}

// ---------------------------------------------------------------- marker

/// The `// @dart=x.y` marker: read in the leading blank and `//` comment
/// lines; the first line with anything else ends the search.
pub open spec fn marcador_em(ls: Seq<Seq<char>>) -> Option<(nat, nat)>
    decreases ls.len(),
{
    if ls.len() == 0 {
        None
    } else {
        let t = aparar(ls[0]);
        if t.len() == 0 {
            marcador_em(ls.drop_first())
        } else if comeca_com(t, "//"@) {
            let c = aparar_inicio(t.skip(2));
            if comeca_com(c, "@dart"@) && comeca_com(aparar_inicio(c.skip(5)), "="@) {
                versao_em(aparar_inicio(c.skip(5)).skip(1))
            } else {
                marcador_em(ls.drop_first())
            }
        } else {
            None
        }
    }
}

/// The language version marker `// @dart=x.y` of a source, if it has one.
/// This is the library's own reading of the marker: the Dart frontend's
/// reader of it is not a dependency of this crate, so it is not called, and
/// its behaviour is not claimed here.
pub fn marcador_versao(fonte: &str) -> (r: Option<LanguageVersion>)
    ensures
        versao_de(r) == marcador_em(linhas(fonte@)),
{
    let cs = caracteres(fonte);
    let ls = dividir_linhas(cs.as_slice());
    let ghost lv = vistas(ls@);
    assert(lv.skip(0) =~= lv);
    let mut i: usize = 0;
    while i < ls.len()
        invariant
            i <= ls@.len(),
            lv == vistas(ls@),
            lv == linhas(fonte@),
            marcador_em(lv) == marcador_em(lv.skip(i as int)),
        decreases ls.len() - i,
    {
        proof {
            reveal_strlit("//");
            reveal_strlit("@dart");
            reveal_strlit("=");
            assert(lv.skip(i as int)[0] == ls@[i as int]@);
            assert(lv.skip(i as int).drop_first() =~= lv.skip(i + 1));
        }
        let t = sem_espacos(ls[i].as_slice());
        if t.len() > 0 {
            if !comeca_str(t.as_slice(), "//") {
                return None;
            }
            let depois = copiar(t.as_slice(), 2, t.len());
            assert(depois@ =~= t@.skip(2));
            let c = sem_espaco_inicial(depois.as_slice());
            if comeca_str(c.as_slice(), "@dart") {
                let resto = copiar(c.as_slice(), 5, c.len());
                assert(resto@ =~= c@.skip(5));
                let r = sem_espaco_inicial(resto.as_slice());
                if comeca_str(r.as_slice(), "=") {
                    let v = copiar(r.as_slice(), 1, r.len());
                    assert(v@ =~= r@.skip(1));
                    return ler_versao(v.as_slice());
                }
            }
        }
        i = i + 1;
    }
    assert(lv.skip(ls@.len() as int) =~= Seq::<Seq<char>>::empty());
    None
}

// ---------------------------------------------------------------- programs

/// A program of the corpus: a loose `x.dart` or a directory with `main.dart`.
#[derive(Debug, Clone)]
pub struct Programa {
    /// Display name (`01_print`, `113_imports_prefixo`).
    pub nome: String,
    /// The file with `main`.
    pub entrada: String,
    /// Every `.dart` of the program (the entry included).
    pub arquivos: Vec<String>,
    /// Reason declared in the header when the program, by definition,
    /// prints different things on the VM and on the web.
    pub diverge_ddc: Option<String>,
    /// `// requer-dart: x.y` (3.6 without the header).
    pub requer: LanguageVersion,
    /// `// @dart=x.y` of the entry, when there is one.
    pub marcador: Option<LanguageVersion>,
    /// `// erro-de-compilacao`: the program must be refused.
    pub erro_compilacao: bool,
    /// `// experimentos: a,b`.
    pub experimentos: Vec<String>,
    /// Listed in `PENDENTES`: a feature not implemented yet.
    pub pendente: bool,
}

impl Programa {
    /// A program with the headers read from `fonte`, the text of `entrada`.
    pub fn novo(nome: String, entrada: String, arquivos: Vec<String>, fonte: &str) -> (p: Programa)
        ensures
            p.nome == nome,
            p.entrada == entrada,
            p.arquivos == arquivos,
            opcao_de_texto(p.diverge_ddc) == diverge_de(linhas_do_cabecalho(fonte@)),
            requer_de(linhas_do_cabecalho(fonte@)) matches Some(v) ==> p.requer.major == v.0
                && p.requer.minor == v.1,
            requer_de(linhas_do_cabecalho(fonte@)) is None ==> p.requer.major == 3
                && p.requer.minor == 6,
            versao_de(p.marcador) == marcador_em(linhas(fonte@)),
            p.erro_compilacao == erro_de(linhas_do_cabecalho(fonte@)),
            textos(p.experimentos@) == experimentos_de(linhas_do_cabecalho(fonte@)),
            !p.pendente,
    {
        let c = ler_cabecalho(fonte);
        let requer = match c.requer {
            Some(v) => v,
            None => LanguageVersion::piso(),
        };
        Programa {
            nome,
            entrada,
            arquivos,
            diverge_ddc: c.diverge_ddc,
            requer,
            marcador: marcador_versao(fonte),
            erro_compilacao: c.erro_compilacao,
            experimentos: c.experimentos,
            pendente: false,
        }
    }

    /// A synthetic program, with no file (tests of the harness).
    pub fn teste(nome: &str) -> (p: Programa)
        ensures
            p.nome@ == nome@,
            p.entrada@ == "x.dart"@,
            p.arquivos@.len() == 0,
            p.diverge_ddc is None,
            p.requer.major == 3 && p.requer.minor == 6,
            p.marcador is None,
            !p.erro_compilacao,
            p.experimentos@.len() == 0,
            !p.pendente,
    {
        Programa {
            nome: nome.to_owned(),
            entrada: "x.dart".to_owned(),
            arquivos: Vec::new(),
            diverge_ddc: None,
            requer: LanguageVersion::piso(),
            marcador: None,
            erro_compilacao: false,
            experimentos: Vec::new(),
            pendente: false,
        }
    }

    /// The reference for DartForge is the VM, except when the header declares
    /// a divergence: then it is the DDC, because the web is the real target.
    pub fn referencia_e_ddc(&self) -> (r: bool)
        ensures
            r == self.diverge_ddc is Some,
    {
        self.diverge_ddc.is_some()
    }
}

// ---------------------------------------------------------------- PENDENTES

/// A line of `PENDENTES` without its `#` comment, trimmed.
pub open spec fn nome_pendente(l: Seq<char>) -> Seq<char> {
    aparar(l.take(primeiro(l, 0, |c: char| c == '#')))
}

/// The names listed in `PENDENTES`: one per line, `#` comments and blank
/// lines ignored.
pub open spec fn pendentes_em(ls: Seq<Seq<char>>) -> Seq<Seq<char>>
    decreases ls.len(),
{
    if ls.len() == 0 {
        Seq::empty()
    } else {
        let t = nome_pendente(ls.last());
        pendentes_em(ls.drop_last()) + if t.len() > 0 {
            seq![t]
        } else {
            Seq::empty()
        }
    }
}

/// The names listed in the text of a `PENDENTES` file.
pub fn pendentes_de(texto: &str) -> (r: Vec<String>)
    ensures
        textos(r@) == pendentes_em(linhas(texto@)),
{
    let cs = caracteres(texto);
    let ls = dividir_linhas(cs.as_slice());
    let ghost lv = vistas(ls@);
    let mut r: Vec<String> = Vec::new();
    let mut i: usize = 0;
    assert(lv.take(0) =~= Seq::<Seq<char>>::empty());
    assert(textos(r@) =~= Seq::<Seq<char>>::empty());
    while i < ls.len()
        invariant
            i <= ls@.len(),
            lv == vistas(ls@),
            lv == linhas(texto@),
            textos(r@) == pendentes_em(lv.take(i as int)),
        decreases ls.len() - i,
    {
        let l = ls[i].as_slice();
        let mut k: usize = 0;
        while k < l.len() && l[k] != '#'
            invariant
                k <= l@.len(),
                forall|j: int| 0 <= j < k ==> l@[j] != '#',
            decreases l.len() - k,
        {
            k = k + 1;
        }
        proof {
            lemma_primeiro_e(l@, 0, k as int, |c: char| c == '#');
            assert(lv.take(i + 1).drop_last() =~= lv.take(i as int));
            assert(lv.take(i + 1).last() == l@);
        }
        let antes_do_comentario = copiar(l, 0, k);
        assert(antes_do_comentario@ =~= l@.take(k as int));
        let t = sem_espacos(antes_do_comentario.as_slice());
        let ghost anterior = textos(r@);
        if t.len() > 0 {
            r.push(texto_de(t.as_slice()));
            assert(textos(r@) =~= anterior + seq![t@]);
        } else {
            assert(textos(r@) =~= anterior + Seq::<Seq<char>>::empty());
        }
        i = i + 1;
    }
    assert(lv.take(ls@.len() as int) =~= lv);
    r
}

// ---------------------------------------------------------------- themes

/// The number that prefixes a name (`u32::MAX` when there is none or it
/// does not fit).
pub open spec fn numero_de(nome: Seq<char>) -> nat {
    let d = digitos_desde(nome, 0);
    if d.len() > 0 && valor_decimal(d) <= u32::MAX {
        valor_decimal(d)
    } else {
        u32::MAX as nat
    }
}

/// The number that prefixes the name of a program.
pub fn numero(nome: &str) -> (r: u32)
    ensures
        r == numero_de(nome@),
{
    let cs = caracteres(nome);
    let d = digitos_a_partir(cs.as_slice(), 0);
    if d.len() == 0 {
        return u32::MAX;
    }
    match valor_ate(d.as_slice(), 4294967295u64) {
        Some(v) => v as u32,
        None => u32::MAX,
    }
}

/// The theme of a program number.
pub open spec fn tema_de(n: nat) -> Seq<char> {
    if n <= 9 {
        "Literais e strings"@
    } else if n <= 19 {
        "Aritmética int/double"@
    } else if n <= 29 {
        "Controle de fluxo"@
    } else if n <= 39 {
        "Funções e closures"@
    } else if n <= 59 {
        "Classes"@
    } else if n <= 69 {
        "Coleções e Iterable"@
    } else if n <= 79 {
        "Exceções"@
    } else if n <= 89 {
        "async/await, Future e Stream"@
    } else if n <= 99 {
        "dynamic, cascatas e null-aware"@
    } else if n <= 109 {
        "Records e padrões"@
    } else if n <= 119 {
        "Extensions, typedef e bibliotecas"@
    } else if n <= 139 {
        "Bibliotecas do SDK"@
    } else if n <= 299 {
        "Convertidos dos fixtures antigos"@
    } else {
        "Outros"@
    }
}

/// Theme of a program by the number that prefixes its name.
pub fn tema(nome: &str) -> (r: &'static str)
    ensures
        r@ == tema_de(numero_de(nome@)),
{
    let n = numero(nome);
    if n <= 9 {
        "Literais e strings"
    } else if n <= 19 {
        "Aritmética int/double"
    } else if n <= 29 {
        "Controle de fluxo"
    } else if n <= 39 {
        "Funções e closures"
    } else if n <= 59 {
        "Classes"
    } else if n <= 69 {
        "Coleções e Iterable"
    } else if n <= 79 {
        "Exceções"
    } else if n <= 89 {
        "async/await, Future e Stream"
    } else if n <= 99 {
        "dynamic, cascatas e null-aware"
    } else if n <= 109 {
        "Records e padrões"
    } else if n <= 119 {
        "Extensions, typedef e bibliotecas"
    } else if n <= 139 {
        "Bibliotecas do SDK"
    } else if n <= 299 {
        "Convertidos dos fixtures antigos"
    } else {
        "Outros"
    }
}

// ---------------------------------------------------------------- fragments

/// `K/N` read from the argument of `--fragmento`.
pub open spec fn fragmento_lido(t: Seq<char>) -> Option<(nat, nat)> {
    let i = primeiro(t, 0, |c: char| c == '/');
    if i >= t.len() {
        None
    } else {
        match (inteiro_sem_sinal(aparar(t.take(i))), inteiro_sem_sinal(aparar(t.skip(i + 1)))) {
            (Some(k), Some(n)) => if k <= usize::MAX && n <= usize::MAX && n != 0 && k != 0 && k
                <= n {
                Some((k, n))
            } else {
                None
            },
            _ => None,
        }
    }
}

/// The message of a malformed `--fragmento`.
pub open spec fn erro_de_fragmento(t: Seq<char>) -> Seq<char> {
    "--fragmento espera K/N com 1 <= K <= N, recebeu `"@ + t + "`"@
}

/// The theme of each numeric prefix, range by range: 0-9 literals and
/// strings, 10-19 int/double arithmetic, 20-29 control flow, 30-39 functions
/// and closures, 40-59 classes, 60-69 collections, 70-79 exceptions, 80-89
/// async, 90-99 dynamic, cascades and null-aware, 100-109 records and
/// patterns, 110-119 extensions, typedefs and libraries, 120-139 SDK
/// libraries, 140-299 converted fixtures, and the rest "Outros".
pub proof fn tema_por_faixa(n: nat)
    ensures
        n <= 9 ==> tema_de(n) == "Literais e strings"@,
        10 <= n <= 19 ==> tema_de(n) == "Aritmética int/double"@,
        20 <= n <= 29 ==> tema_de(n) == "Controle de fluxo"@,
        30 <= n <= 39 ==> tema_de(n) == "Funções e closures"@,
        40 <= n <= 59 ==> tema_de(n) == "Classes"@,
        60 <= n <= 69 ==> tema_de(n) == "Coleções e Iterable"@,
        70 <= n <= 79 ==> tema_de(n) == "Exceções"@,
        80 <= n <= 89 ==> tema_de(n) == "async/await, Future e Stream"@,
        90 <= n <= 99 ==> tema_de(n) == "dynamic, cascatas e null-aware"@,
        100 <= n <= 109 ==> tema_de(n) == "Records e padrões"@,
        110 <= n <= 119 ==> tema_de(n) == "Extensions, typedef e bibliotecas"@,
        120 <= n <= 139 ==> tema_de(n) == "Bibliotecas do SDK"@,
        140 <= n <= 299 ==> tema_de(n) == "Convertidos dos fixtures antigos"@,
        300 <= n ==> tema_de(n) == "Outros"@,
{
}

/// The number of a name is the value of its leading run of digits (when it
/// fits a `u32`), whatever follows that run.
pub proof fn numero_le_o_prefixo(d: Seq<char>, resto: Seq<char>)
    requires
        d.len() > 0,
        so_digitos(d),
        valor_decimal(d) <= u32::MAX,
        resto.len() > 0 ==> !crate::texto::eh_digito(resto[0]),
    ensures
        numero_de(d + resto) == valor_decimal(d),
{
    let s = d + resto;
    assert forall|k: int| 0 <= k < d.len() implies !crate::texto::nao_digito()(#[trigger] s[k]) by {
        assert(s[k] == d[k]);
    }
    if resto.len() > 0 {
        assert(s[d.len() as int] == resto[0]);
    }
    lemma_primeiro_e(s, 0, d.len() as int, crate::texto::nao_digito());
    assert(digitos_desde(s, 0) =~= d);
}

/// A name that does not start with a digit has no number: it goes with the
/// largest, `u32::MAX`.
pub proof fn nome_sem_numero(s: Seq<char>)
    requires
        s.len() == 0 || !crate::texto::eh_digito(s[0]),
    ensures
        numero_de(s) == u32::MAX,
{
    lemma_primeiro_e(s, 0, 0, crate::texto::nao_digito());
    assert(digitos_desde(s, 0).len() == 0);
}

/// Reads `K/N` (fragment K of N, counted from 1): the argument of `--fragmento`.
pub fn ler_fragmento(texto: &str) -> (r: Result<(usize, usize), String>)
    ensures
        match r {
            Ok((k, n)) => fragmento_lido(texto@) == Some((k as nat, n as nat)),
            Err(e) => fragmento_lido(texto@) is None && e@ == erro_de_fragmento(texto@),
        },
{
    let mut erro = String::new();
    erro.append("--fragmento espera K/N com 1 <= K <= N, recebeu `");
    erro.append(texto);
    erro.append("`");
    let t = caracteres(texto);
    let mut i: usize = 0;
    while i < t.len() && t[i] != '/'
        invariant
            i <= t@.len(),
            forall|j: int| 0 <= j < i ==> t@[j] != '/',
        decreases t.len() - i,
    {
        i = i + 1;
    }
    proof {
        lemma_primeiro_e(t@, 0, i as int, |c: char| c == '/');
    }
    if i == t.len() {
        return Err(erro);
    }
    let a = copiar(t.as_slice(), 0, i);
    let b = copiar(t.as_slice(), i + 1, t.len());
    assert(a@ =~= t@.take(i as int));
    assert(b@ =~= t@.skip(i + 1));
    let ka = sem_espacos(a.as_slice());
    let nb = sem_espacos(b.as_slice());
    let k = match ler_sem_sinal(ka.as_slice(), usize::MAX as u64) {
        Some(k) => k as usize,
        None => {
            return Err(erro);
        },
    };
    let n = match ler_sem_sinal(nb.as_slice(), usize::MAX as u64) {
        Some(n) => n as usize,
        None => {
            return Err(erro);
        },
    };
    if n == 0 || k == 0 || k > n {
        return Err(erro);
    }
    Ok((k, n))
}

/// The index, in the whole list, of item `j` of fragment `k` of `n`.
pub open spec fn indice_no_fragmento(k: nat, j: nat, n: nat) -> int {
    (k - 1) + j * n
}

/// How many of `len` items have an index `i` with `i % n == k - 1`.
pub open spec fn tamanho_do_fragmento(len: nat, k: nat, n: nat) -> nat {
    ((len + n - k) / (n as int)) as nat
}

proof fn lemma_fragmento_passo(i: nat, k: nat, n: nat)
    requires
        0 < n,
        1 <= k <= n,
    ensures
        i % n == k - 1 ==> tamanho_do_fragmento(i + 1, k, n) == tamanho_do_fragmento(i, k, n) + 1
            && (k - 1) + tamanho_do_fragmento(i, k, n) * n == i,
        i % n != k - 1 ==> tamanho_do_fragmento(i + 1, k, n) == tamanho_do_fragmento(i, k, n),
{
    let q = i / n;
    let r = i % n;
    assert(i == q * n + r && 0 <= r < n) by (nonlinear_arith)
        requires
            q == i / n,
            r == i % n,
            n > 0,
    ;
    if r == k - 1 {
        assert((i + n - k) / (n as int) == q && (i + 1 + n - k) / (n as int) == q + 1)
            by (nonlinear_arith)
            requires
                i == q * n + r,
                r == k - 1,
                n > 0,
                0 <= q,
        ;
    } else if r < k - 1 {
        assert((i + n - k) / (n as int) == q && (i + 1 + n - k) / (n as int) == q)
            by (nonlinear_arith)
            requires
                i == q * n + r,
                r < k - 1,
                0 <= r,
                k <= n,
                n > 0,
                0 <= q,
        ;
    } else {
        assert((i + n - k) / (n as int) == q + 1 && (i + 1 + n - k) / (n as int) == q + 1)
            by (nonlinear_arith)
            requires
                i == q * n + r,
                r > k - 1,
                r < n,
                k >= 1,
                n > 0,
                0 <= q,
        ;
    }
}

/// Fragment `k` of `n` of a list (already in the order of the corpus): the
/// items of index `i` with `i % n == k - 1`, in their order.
pub fn fragmento<T>(itens: Vec<T>, k: usize, n: usize) -> (r: Vec<T>)
    requires
        n > 0,
        1 <= k <= n,
    ensures
        r@.len() == tamanho_do_fragmento(itens@.len(), k as nat, n as nat),
        forall|j: int|
            0 <= j < r@.len() ==> r@[j] == itens@[indice_no_fragmento(k as nat, j as nat, n as nat)],
{
    let ghost lista = itens@;
    let tamanho = itens.len();
    let mut r: Vec<T> = Vec::new();
    let mut i: usize = 0;
    assert(tamanho_do_fragmento(0, k as nat, n as nat) == 0) by (nonlinear_arith)
        requires
            1 <= k <= n,
    ;
    for x in it: itens
        invariant
            it.seq() == lista,
            tamanho == lista.len(),
            i == it.index(),
            n > 0,
            1 <= k <= n,
            r@.len() == tamanho_do_fragmento(i as nat, k as nat, n as nat),
            forall|j: int| 0 <= j < r@.len() ==> r@[j] == lista[(k - 1) + j * n],
    {
        proof {
            lemma_fragmento_passo(i as nat, k as nat, n as nat);
        }
        if i % n == k - 1 {
            let ghost antes = r@;
            r.push(x);
            assert forall|j: int| 0 <= j < r@.len() implies r@[j] == lista[(k - 1) + j * n] by {
                if j < antes.len() {
                    assert(r@[j] == antes[j]);
                }
            }
        }
        i = i + 1;
    }
    r
}

/// The `n` fragments split the list: item `i` lies in fragment `i % n + 1`,
/// at position `i / n`, and in no other fragment.
pub proof fn fragmentos_particionam(len: nat, n: nat, i: nat)
    requires
        n > 0,
        i < len,
    ensures
        1 <= i % n + 1 <= n,
        i / n < tamanho_do_fragmento(len, i % n + 1, n),
        indice_no_fragmento(i % n + 1, i / n, n) == i,
        forall|k: nat, j: nat|
            1 <= k <= n && j < tamanho_do_fragmento(len, k, n) && #[trigger] indice_no_fragmento(
                k,
                j,
                n,
            ) == i ==> k == i % n + 1 && j == i / n,
{
    let q = i / n;
    let r = i % n;
    assert(i == q * n + r && 0 <= r < n) by (nonlinear_arith)
        requires
            q == i / n,
            r == i % n,
            n > 0,
    ;
    assert((len + n - (r + 1)) / (n as int) > q) by (nonlinear_arith)
        requires
            i == q * n + r,
            i < len,
            0 <= r < n,
            n > 0,
    ;
    assert forall|k: nat, j: nat|
        1 <= k <= n && j < tamanho_do_fragmento(len, k, n) && #[trigger] indice_no_fragmento(
            k,
            j,
            n,
        ) == i implies k == r + 1 && j == q by {
        assert(k - 1 == r && j == q) by (nonlinear_arith)
            requires
                (k - 1) + j * n == i,
                i == q * n + r,
                0 <= r < n,
                1 <= k <= n,
                n > 0,
                0 <= q,
                0 <= j,
        ;
    }
}

/// Each fragment keeps the order of the list: a later item of the fragment
/// comes from a later index of the list.
pub proof fn fragmento_preserva_a_ordem(k: nat, n: nat, j1: nat, j2: nat)
    requires
        n > 0,
        1 <= k <= n,
        j1 < j2,
    ensures
        indice_no_fragmento(k, j1, n) < indice_no_fragmento(k, j2, n),
{
    assert(j1 * n < j2 * n) by (nonlinear_arith)
        requires
            j1 < j2,
            n > 0,
    ;
}

/// The fragments are balanced: each has `len / n` items, or one more.
pub proof fn fragmentos_equilibrados(len: nat, n: nat, k: nat)
    requires
        n > 0,
        1 <= k <= n,
    ensures
        len / n <= tamanho_do_fragmento(len, k, n) <= len / n + 1,
{
    let q = len / n;
    let r = len % n;
    assert(len == q * n + r && 0 <= r < n) by (nonlinear_arith)
        requires
            q == len / n,
            r == len % n,
            n > 0,
    ;
    assert(q <= (len + n - k) / (n as int) <= q + 1) by (nonlinear_arith)
        requires
            len == q * n + r,
            0 <= r < n,
            1 <= k <= n,
            0 <= q,
    ;
}

// ---------------------------------------------------------------- listing

/// Order of the listing: alphabetical by name (the order of `str`, character
/// by character).
pub open spec fn vem_antes(a: Seq<char>, b: Seq<char>) -> bool {
    lex_menor(a, b)
}

/// First position `j >= i` of `s` before which `x` goes, or `s.len()`.
pub open spec fn posicao_desde(s: Seq<Programa>, x: Seq<char>, i: int) -> int
    decreases s.len() - i,
{
    if i >= s.len() {
        s.len() as int
    } else if vem_antes(x, s[i].nome@) {
        i
    } else {
        posicao_desde(s, x, i + 1)
    }
}

proof fn lemma_posicao(s: Seq<Programa>, x: Seq<char>, i: int, r: int)
    requires
        0 <= i <= r <= s.len(),
        forall|k: int| i <= k < r ==> !vem_antes(x, #[trigger] s[k].nome@),
        r < s.len() ==> vem_antes(x, s[r].nome@),
    ensures
        posicao_desde(s, x, i) == r,
    decreases r - i,
{
    if i < r {
        lemma_posicao(s, x, i + 1, r);
    }
}

/// Stable insertion of `x` in the ordered `s`: after every item that does
/// not go after it.
pub open spec fn inserir(s: Seq<Programa>, x: Programa) -> Seq<Programa> {
    s.insert(posicao_desde(s, x.nome@, 0), x)
}

/// The stable sort of `s` by `vem_antes`.
pub open spec fn ordenar(s: Seq<Programa>) -> Seq<Programa>
    decreases s.len(),
{
    if s.len() == 0 {
        Seq::empty()
    } else {
        inserir(ordenar(s.drop_last()), s.last())
    }
}

/// Every item goes, in the listing order, no later than the items after it.
pub open spec fn em_ordem(s: Seq<Programa>) -> bool {
    forall|i: int, j: int| 0 <= i < j < s.len() ==> !vem_antes(#[trigger] s[j].nome@, #[trigger] s[i].nome@)
}

proof fn lemma_vem_antes_transitiva(a: Seq<char>, b: Seq<char>, c: Seq<char>)
    requires
        vem_antes(a, b),
        vem_antes(b, c),
    ensures
        vem_antes(a, c),
{
    lemma_lex_transitiva(a, b, c);
}

proof fn lemma_posicao_desde(s: Seq<Programa>, x: Seq<char>, i: int)
    requires
        0 <= i <= s.len(),
    ensures
        i <= posicao_desde(s, x, i) <= s.len(),
        forall|k: int| i <= k < posicao_desde(s, x, i) ==> !vem_antes(x, #[trigger] s[k].nome@),
        posicao_desde(s, x, i) < s.len() ==> vem_antes(x, s[posicao_desde(s, x, i)].nome@),
    decreases s.len() - i,
{
    if i < s.len() && !vem_antes(x, s[i].nome@) {
        lemma_posicao_desde(s, x, i + 1);
    }
}

/// Inserting keeps a listing in order, and adds just the item inserted.
proof fn lemma_inserir(r: Seq<Programa>, x: Programa)
    requires
        em_ordem(r),
    ensures
        em_ordem(inserir(r, x)),
        inserir(r, x).to_multiset() == r.to_multiset().insert(x),
{
    let p = posicao_desde(r, x.nome@, 0);
    lemma_posicao_desde(r, x.nome@, 0);
    let t = inserir(r, x);
    assert(t =~= r.insert(p, x));
    assert forall|i: int, j: int| 0 <= i < j < t.len() implies !vem_antes(
        #[trigger] t[j].nome@,
        #[trigger] t[i].nome@,
    ) by {
        if i < p && j < p {
            assert(t[i] == r[i] && t[j] == r[j]);
        } else if i < p && j == p {
            assert(t[i] == r[i] && t[j] == x);
        } else if i < p {
            assert(t[i] == r[i] && t[j] == r[j - 1]);
        } else if i == p {
            assert(t[i] == x && t[j] == r[j - 1]);
            if vem_antes(r[j - 1].nome@, x.nome@) {
                lemma_vem_antes_transitiva(r[j - 1].nome@, x.nome@, r[p].nome@);
                if j - 1 == p {
                    lemma_lex_assimetrica(r[p].nome@, r[p].nome@);
                }
            }
        } else {
            assert(t[i] == r[i - 1] && t[j] == r[j - 1]);
        }
    }
    vstd::seq_lib::to_multiset_insert(r, p, x);
}

/// The listing comes out in alphabetical order of the names, and holds just
/// the programs it was given.
pub proof fn listagem_em_ordem(s: Seq<Programa>)
    ensures
        em_ordem(ordenar(s)),
        ordenar(s).to_multiset() == s.to_multiset(),
    decreases s.len(),
{
    if s.len() == 0 {
        assert(s =~= Seq::<Programa>::empty());
    } else {
        listagem_em_ordem(s.drop_last());
        lemma_inserir(ordenar(s.drop_last()), s.last());
        assert(s =~= s.drop_last().push(s.last()));
        vstd::seq_lib::to_multiset_build(s.drop_last(), s.last());
    }
}

/// Whether a name passes the filter (a substring of the name).
pub open spec fn passa(nome: Seq<char>, filtro: Option<Seq<char>>) -> bool {
    match filtro {
        Some(f) => contem(nome, f),
        None => true,
    }
}

/// `p` marked as pending when its name is listed.
pub open spec fn marcado(p: Programa, pendentes: Seq<Seq<char>>) -> Programa {
    Programa { pendente: pendentes.contains(p.nome@), ..p }
}

/// The programs that pass the filter, each marked as pending or not.
pub open spec fn selecionar(
    s: Seq<Programa>,
    pendentes: Seq<Seq<char>>,
    filtro: Option<Seq<char>>,
) -> Seq<Programa>
    decreases s.len(),
{
    if s.len() == 0 {
        Seq::empty()
    } else {
        selecionar(s.drop_last(), pendentes, filtro) + if passa(s.last().nome@, filtro) {
            seq![marcado(s.last(), pendentes)]
        } else {
            Seq::empty()
        }
    }
}

/// Whether `nome` is in the list.
fn listado(lista: &[String], nome: &String) -> (r: bool)
    ensures
        r == textos(lista@).contains(nome@),
{
    let mut j: usize = 0;
    while j < lista.len()
        invariant
            j <= lista@.len(),
            forall|k: int| 0 <= k < j ==> lista@[k]@ != nome@,
        decreases lista.len() - j,
    {
        if lista[j] == *nome {
            assert(textos(lista@)[j as int] == nome@);
            return true;
        }
        j = j + 1;
    }
    assert forall|k: int| 0 <= k < textos(lista@).len() implies textos(lista@)[k] != nome@ by {
        assert(textos(lista@)[k] == lista@[k]@);
    }
    false
}

/// Whether `a` goes before `b` in the listing.
fn antes(a: &String, b: &String) -> (r: bool)
    ensures
        r == vem_antes(a@, b@),
{
    let ca = caracteres(a.as_str());
    let cb = caracteres(b.as_str());
    precede(ca.as_slice(), cb.as_slice())
}

/// The programs found in a corpus directory, marked as pending when listed
/// in `PENDENTES`, kept when their name contains the filter, and in
/// alphabetical order of their names.
pub fn organizar(programas: Vec<Programa>, pendentes: &[String], filtro: Option<&str>) -> (r: Vec<
    Programa,
>)
    ensures
        r@ == ordenar(
            selecionar(
                programas@,
                textos(pendentes@),
                match filtro {
                    Some(f) => Some(f@),
                    None => None,
                },
            ),
        ),
{
    let ghost lista = programas@;
    let ghost f = match filtro {
        Some(f) => Some(f@),
        None => None::<Seq<char>>,
    };
    let ghost pend = textos(pendentes@);
    let filtro_cs: Option<Vec<char>> = match filtro {
        Some(x) => Some(caracteres(x)),
        None => None,
    };
    let mut r: Vec<Programa> = Vec::new();
    assert(lista.take(0) =~= Seq::<Programa>::empty());
    for p in it: programas
        invariant
            it.seq() == lista,
            pend == textos(pendentes@),
            match filtro_cs {
                Some(v) => f == Some(v@),
                None => f is None,
            },
            r@ == ordenar(selecionar(lista.take(it.index() as int), pend, f)),
    {
        let ghost i = it.index() as int;
        proof {
            assert(lista.take(i + 1).drop_last() =~= lista.take(i));
            assert(lista.take(i + 1).last() == p);
        }
        let mut p = p;
        let nome_cs = caracteres(p.nome.as_str());
        let fica = match &filtro_cs {
            Some(v) => match procurar(nome_cs.as_slice(), v.as_slice(), 0) {
                Some(_) => true,
                None => false,
            },
            None => true,
        };
        if fica {
            let ghost antes_de_marcar = p;
            p.pendente = listado(pendentes, &p.nome);
            assert(p == marcado(antes_de_marcar, pend));
            let mut j: usize = 0;
            while j < r.len() && !antes(&p.nome, &r[j].nome)
                invariant
                    j <= r@.len(),
                    forall|k: int| 0 <= k < j ==> !vem_antes(p.nome@, #[trigger] r@[k].nome@),
                decreases r.len() - j,
            {
                j = j + 1;
            }
            proof {
                lemma_posicao(r@, p.nome@, 0, j as int);
            }
            let ghost sel = selecionar(lista.take(i), pend, f);
            assert(selecionar(lista.take(i + 1), pend, f) =~= sel.push(p));
            assert(sel.push(p).drop_last() =~= sel);
            r.insert(j, p);
        } else {
            assert(selecionar(lista.take(i + 1), pend, f) =~= selecionar(
                lista.take(i),
                pend,
                f,
            ));
        }
    }
    assert(lista.take(lista.len() as int) =~= lista);
    r
}

} // verus!
