//! Diagnostics shared by the compiler, the analyzer and the language server.
//!
//! A [`Diagnostic`] may carry a [`Codigo`] of the official `package:analyzer`,
//! with severity and arguments. The message of a diagnostic with a code is
//! rendered from the official English template ([`InfoCodigo::mensagem`])
//! with the rule of the analyzer's `formatList`: each `{n}` becomes argument `n`.
use vstd::prelude::*;

use crate::corpus::textos;
use crate::tabela::{entrada, ler_entrada, NUMERO_DE_CODIGOS};
use crate::unicos::{lemma_cresce, lemma_volta, ordem, posicao};
use crate::texto::{
    anexar, caracteres, decimal, escrever_decimal, iguais, valor_ate, valor_decimal, vistas,
    digitos_a_partir, digitos_desde, empurrar, lex_menor, lemma_lex_assimetrica,
    lemma_lex_transitiva,
};

verus! {

/// Half-open interval of UTF-8 bytes in the source file.
#[derive(Debug, Clone, Copy, PartialEq, Eq, Structural)]
pub struct Span {
    /// First byte included.
    pub start: usize,
    /// First byte after the interval.
    pub end: usize,
}

/// Severity of a diagnostic, named as the analyzer's `ErrorSeverity`.
/// The order is the one `dart analyze` reports in: errors first.
#[derive(Debug, Clone, Copy, PartialEq, Eq, PartialOrd, Ord, Hash, Structural)]
pub enum Severidade {
    /// `ERROR`: compile or syntax error.
    Error,
    /// `WARNING`.
    Warning,
    /// `INFO`: hints, lints and TODOs.
    Info,
}

/// The name in `ErrorSeverity.name`.
pub open spec fn nome_da_severidade(s: Severidade) -> Seq<char> {
    match s {
        Severidade::Error => "ERROR"@,
        Severidade::Warning => "WARNING"@,
        Severidade::Info => "INFO"@,
    }
}

/// The severity with a given name.
pub open spec fn severidade_de_nome(n: Seq<char>) -> Option<Severidade> {
    if n == "ERROR"@ {
        Some(Severidade::Error)
    } else if n == "WARNING"@ {
        Some(Severidade::Warning)
    } else if n == "INFO"@ {
        Some(Severidade::Info)
    } else {
        None
    }
}

impl Default for Severidade {
    fn default() -> (r: Severidade)
        ensures
            r == Severidade::Error,
    {
        Severidade::Error
    }
}

impl Severidade {
    /// The name in `ErrorSeverity.name` (`"ERROR"`, `"WARNING"`, `"INFO"`).
    pub fn nome(self) -> (r: &'static str)
        ensures
            r@ == nome_da_severidade(self),
    {
        match self {
            Severidade::Error => "ERROR",
            Severidade::Warning => "WARNING",
            Severidade::Info => "INFO",
        }
    }

    /// Reads the name of [`Severidade::nome`].
    pub fn por_nome(nome: &str) -> (r: Option<Severidade>)
        ensures
            r == severidade_de_nome(nome@),
    {
        let n = caracteres(nome);
        if iguais(n.as_slice(), caracteres("ERROR").as_slice()) {
            Some(Severidade::Error)
        } else if iguais(n.as_slice(), caracteres("WARNING").as_slice()) {
            Some(Severidade::Warning)
        } else if iguais(n.as_slice(), caracteres("INFO").as_slice()) {
            Some(Severidade::Info)
        } else {
            None
        }
    }
}

/// Reading the name of a severity gives it back.
pub proof fn severidade_por_nome_inverte_nome(s: Severidade)
    ensures
        severidade_de_nome(nome_da_severidade(s)) == Some(s),
{
    reveal_strlit("ERROR");
    reveal_strlit("WARNING");
    reveal_strlit("INFO");
    if s == Severidade::Warning {
        assert("WARNING"@.len() != "ERROR"@.len());
    }
    if s == Severidade::Info {
        assert("INFO"@.len() != "ERROR"@.len());
        assert("INFO"@.len() != "WARNING"@.len());
    }
}

/// The type of a code, named as the analyzer's `ErrorType`.
#[derive(Debug, Clone, Copy, PartialEq, Eq, PartialOrd, Ord, Hash, Structural)]
pub enum TipoErro {
    /// `TODO`.
    Todo,
    /// `HINT`.
    Hint,
    /// `COMPILE_TIME_ERROR`.
    CompileTimeError,
    /// `CHECKED_MODE_COMPILE_TIME_ERROR`.
    CheckedModeCompileTimeError,
    /// `STATIC_WARNING` (also the one of the `WarningCode`s).
    StaticWarning,
    /// `SYNTACTIC_ERROR` (parser and scanner).
    SyntacticError,
    /// `LINT`.
    Lint,
}

/// The name in `ErrorType.name`.
pub open spec fn nome_do_tipo(t: TipoErro) -> Seq<char> {
    match t {
        TipoErro::Todo => "TODO"@,
        TipoErro::Hint => "HINT"@,
        TipoErro::CompileTimeError => "COMPILE_TIME_ERROR"@,
        TipoErro::CheckedModeCompileTimeError => "CHECKED_MODE_COMPILE_TIME_ERROR"@,
        TipoErro::StaticWarning => "STATIC_WARNING"@,
        TipoErro::SyntacticError => "SYNTACTIC_ERROR"@,
        TipoErro::Lint => "LINT"@,
    }
}

/// The first type, in the order of declaration, with a given name.
pub open spec fn tipo_de_nome(n: Seq<char>) -> Option<TipoErro> {
    if n == "TODO"@ {
        Some(TipoErro::Todo)
    } else if n == "HINT"@ {
        Some(TipoErro::Hint)
    } else if n == "COMPILE_TIME_ERROR"@ {
        Some(TipoErro::CompileTimeError)
    } else if n == "CHECKED_MODE_COMPILE_TIME_ERROR"@ {
        Some(TipoErro::CheckedModeCompileTimeError)
    } else if n == "STATIC_WARNING"@ {
        Some(TipoErro::StaticWarning)
    } else if n == "SYNTACTIC_ERROR"@ {
        Some(TipoErro::SyntacticError)
    } else if n == "LINT"@ {
        Some(TipoErro::Lint)
    } else {
        None
    }
}

/// The default severity of a type (`ErrorType.severity`).
pub open spec fn severidade_do_tipo(t: TipoErro) -> Severidade {
    match t {
        TipoErro::Todo | TipoErro::Hint | TipoErro::Lint => Severidade::Info,
        TipoErro::StaticWarning => Severidade::Warning,
        TipoErro::CompileTimeError | TipoErro::CheckedModeCompileTimeError
        | TipoErro::SyntacticError => Severidade::Error,
    }
}

/// Compile and syntax errors: `compile-js` refuses the program.
pub open spec fn erro_de_compilacao(t: TipoErro) -> bool {
    t == TipoErro::CompileTimeError || t == TipoErro::CheckedModeCompileTimeError || t
        == TipoErro::SyntacticError
}

impl TipoErro {
    /// The name in `ErrorType.name`.
    pub fn nome(self) -> (r: &'static str)
        ensures
            r@ == nome_do_tipo(self),
    {
        match self {
            TipoErro::Todo => "TODO",
            TipoErro::Hint => "HINT",
            TipoErro::CompileTimeError => "COMPILE_TIME_ERROR",
            TipoErro::CheckedModeCompileTimeError => "CHECKED_MODE_COMPILE_TIME_ERROR",
            TipoErro::StaticWarning => "STATIC_WARNING",
            TipoErro::SyntacticError => "SYNTACTIC_ERROR",
            TipoErro::Lint => "LINT",
        }
    }

    /// Reads the name of [`TipoErro::nome`].
    pub fn por_nome(nome: &str) -> (r: Option<TipoErro>)
        ensures
            r == tipo_de_nome(nome@),
    {
        let n = caracteres(nome);
        let n = n.as_slice();
        if iguais(n, caracteres("TODO").as_slice()) {
            Some(TipoErro::Todo)
        } else if iguais(n, caracteres("HINT").as_slice()) {
            Some(TipoErro::Hint)
        } else if iguais(n, caracteres("COMPILE_TIME_ERROR").as_slice()) {
            Some(TipoErro::CompileTimeError)
        } else if iguais(n, caracteres("CHECKED_MODE_COMPILE_TIME_ERROR").as_slice()) {
            Some(TipoErro::CheckedModeCompileTimeError)
        } else if iguais(n, caracteres("STATIC_WARNING").as_slice()) {
            Some(TipoErro::StaticWarning)
        } else if iguais(n, caracteres("SYNTACTIC_ERROR").as_slice()) {
            Some(TipoErro::SyntacticError)
        } else if iguais(n, caracteres("LINT").as_slice()) {
            Some(TipoErro::Lint)
        } else {
            None
        }
    }

    /// The default severity of the type (`ErrorType.severity`).
    pub fn severidade(self) -> (r: Severidade)
        ensures
            r == severidade_do_tipo(self),
    {
        match self {
            TipoErro::Todo | TipoErro::Hint | TipoErro::Lint => Severidade::Info,
            TipoErro::StaticWarning => Severidade::Warning,
            TipoErro::CompileTimeError | TipoErro::CheckedModeCompileTimeError
            | TipoErro::SyntacticError => Severidade::Error,
        }
    }

    /// Compile and syntax errors: `compile-js` refuses the program.
    pub fn e_erro_de_compilacao(self) -> (r: bool)
        ensures
            r == erro_de_compilacao(self),
    {
        match self {
            TipoErro::CompileTimeError | TipoErro::CheckedModeCompileTimeError
            | TipoErro::SyntacticError => true,
            _ => false,
        }
    }
}

/// A type refuses compilation exactly when its default severity is `Error`.
pub proof fn erro_de_compilacao_e_severidade_erro(t: TipoErro)
    ensures
        erro_de_compilacao(t) <==> severidade_do_tipo(t) == Severidade::Error,
{
}

/// Reading the name of a type gives it back.
pub proof fn tipo_por_nome_inverte_nome(t: TipoErro)
    ensures
        tipo_de_nome(nome_do_tipo(t)) == Some(t),
{
    reveal_strlit("TODO");
    reveal_strlit("HINT");
    reveal_strlit("COMPILE_TIME_ERROR");
    reveal_strlit("CHECKED_MODE_COMPILE_TIME_ERROR");
    reveal_strlit("STATIC_WARNING");
    reveal_strlit("SYNTACTIC_ERROR");
    reveal_strlit("LINT");
    let n = nome_do_tipo(t);
    if t != TipoErro::Todo {
        assert(n[0] != 'T' || n.len() != 4);
        assert(n != "TODO"@);
    }
    if t != TipoErro::Hint {
        assert(n[0] != 'H');
        assert(n != "HINT"@);
    }
    if t != TipoErro::CompileTimeError {
        assert(n.len() != 18 || n[0] != 'C');
        assert(n != "COMPILE_TIME_ERROR"@);
    }
    if t != TipoErro::CheckedModeCompileTimeError {
        assert(n.len() != 31);
        assert(n != "CHECKED_MODE_COMPILE_TIME_ERROR"@);
    }
    if t != TipoErro::StaticWarning {
        assert(n.len() != 14);
        assert(n != "STATIC_WARNING"@);
    }
    if t != TipoErro::SyntacticError {
        assert(n.len() != 15);
        assert(n != "SYNTACTIC_ERROR"@);
    }
}

/// An entry of the table: an `ErrorCode` of the analyzer.
#[derive(Debug, Clone, Copy, PartialEq, Eq)]
pub struct InfoCodigo {
    /// The code as `dart analyze` reports it: `ErrorCode.name` in lower case.
    /// Several codes may share the name (different `uniqueName`).
    pub nome: &'static str,
    /// `ErrorCode.uniqueName`, e.g. `CompileTimeErrorCode.UNDEFINED_FUNCTION`.
    pub unico: &'static str,
    /// Template of the message, with `{0}`, `{1}`...
    pub mensagem: &'static str,
    /// Template of the correction, if there is one.
    pub correcao: Option<&'static str>,
    /// `ErrorCode.type`.
    pub tipo: TipoErro,
    /// `ErrorCode.errorSeverity`.
    pub severidade: Severidade,
    /// `hasPublishedDocs`: the JSON of `dart analyze` has `documentation`.
    pub documentado: bool,
}

/// The address of the published documentation of a code.
pub open spec fn url_de(info: InfoCodigo) -> Option<Seq<char>> {
    if info.documentado {
        Some("https://dart.dev/diagnostics/"@ + info.nome@)
    } else {
        None
    }
}

impl InfoCodigo {
    /// `ErrorCode.url`: the address of the published documentation.
    pub fn url(&self) -> (r: Option<String>)
        ensures
            match r {
                Some(u) => url_de(*self) == Some(u@),
                None => url_de(*self) is None,
            },
    {
        if self.documentado {
            let mut u = "https://dart.dev/diagnostics/".to_owned();
            u.append(self.nome);
            Some(u)
        } else {
            None
        }
    }
}

/// An analyzer code: an index into the table (2 bytes per diagnostic).
#[derive(Debug, Clone, Copy, PartialEq, Eq, PartialOrd, Ord, Hash, Structural)]
pub struct Codigo(u16);

impl View for Codigo {
    type V = nat;

    closed spec fn view(&self) -> nat {
        self.0 as nat
    }
}

impl Codigo {
    #[verifier::type_invariant]
    spec fn na_tabela(self) -> bool {
        self.0 < NUMERO_DE_CODIGOS
    }

    /// Two codes with the same view (the same place in the table) are the
    /// same code.
    pub proof fn codigo_pela_vista(a: Codigo, b: Codigo)
        requires
            a@ == b@,
        ensures
            a == b,
    {
    }

    /// The entry of the table.
    pub fn info(self) -> (r: InfoCodigo)
        ensures
            r == entrada(self@ as int),
    {
        proof {
            use_type_invariant(self);
        }
        ler_entrada(self.0)
    }

    /// Every code of the table, in the order of the table.
    pub fn todos() -> (r: Vec<Codigo>)
        ensures
            r@.len() == NUMERO_DE_CODIGOS,
            forall|i: int| 0 <= i < r@.len() ==> (#[trigger] r@[i])@ == i,
    {
        let mut r: Vec<Codigo> = Vec::new();
        let mut i: u16 = 0;
        while i < NUMERO_DE_CODIGOS
            invariant
                i <= NUMERO_DE_CODIGOS,
                r@.len() == i,
                forall|k: int| 0 <= k < r@.len() ==> (#[trigger] r@[k])@ == k,
            decreases NUMERO_DE_CODIGOS - i,
        {
            r.push(Codigo(i));
            i = i + 1;
        }
        r
    }

    /// Looks a code up by `uniqueName` (`"CompileTimeErrorCode.UNDEFINED_FUNCTION"`).
    pub fn por_unico(unico: &str) -> (r: Option<Codigo>)
        ensures
            match r {
                Some(c) => busca_unico(unico@, 0) == Some(c@ as int) && c@ < NUMERO_DE_CODIGOS,
                None => busca_unico(unico@, 0) is None,
            },
    {
        let u = caracteres(unico);
        let mut i: u16 = 0;
        while i < NUMERO_DE_CODIGOS
            invariant
                i <= NUMERO_DE_CODIGOS,
                u@ == unico@,
                busca_unico(unico@, 0) == busca_unico(unico@, i as int),
            decreases NUMERO_DE_CODIGOS - i,
        {
            let info = ler_entrada(i);
            if iguais(caracteres(info.unico).as_slice(), u.as_slice()) {
                return Some(Codigo(i));
            }
            i = i + 1;
        }
        None
    }

    /// Looks a code up by the reported code (`"undefined_function"`). Among
    /// those that share the name, gives the one whose `uniqueName` is the
    /// name itself.
    pub fn por_nome(nome: &str) -> (r: Option<Codigo>)
        ensures
            r matches Some(c) ==> c@ < NUMERO_DE_CODIGOS,
            match r {
                Some(c) => entrada(c@ as int).nome@ == nome@ && ((proprio(entrada(c@ as int), nome@)
                    && forall|j: int|
                    0 <= j < c@ ==> !(#[trigger] entrada(j).nome@ == nome@ && proprio(
                        entrada(j),
                        nome@,
                    ))) || ((forall|j: int|
                    0 <= j < NUMERO_DE_CODIGOS ==> !(#[trigger] entrada(j).nome@ == nome@
                        && proprio(entrada(j), nome@))) && forall|j: int|
                    0 <= j < c@ ==> (#[trigger] entrada(j)).nome@ != nome@)),
                None => forall|j: int|
                    0 <= j < NUMERO_DE_CODIGOS ==> (#[trigger] entrada(j)).nome@ != nome@,
            },
    {
        let n = caracteres(nome);
        let mut achado: Option<u16> = None;
        let mut i: u16 = 0;
        while i < NUMERO_DE_CODIGOS
            invariant
                i <= NUMERO_DE_CODIGOS,
                n@ == nome@,
                forall|j: int|
                    0 <= j < i ==> !(#[trigger] entrada(j).nome@ == nome@ && proprio(
                        entrada(j),
                        nome@,
                    )),
                match achado {
                    Some(a) => a < i && entrada(a as int).nome@ == nome@ && forall|j: int|
                        0 <= j < a ==> (#[trigger] entrada(j)).nome@ != nome@,
                    None => forall|j: int| 0 <= j < i ==> (#[trigger] entrada(j)).nome@ != nome@,
                },
            decreases NUMERO_DE_CODIGOS - i,
        {
            let info = ler_entrada(i);
            if iguais(caracteres(info.nome).as_slice(), n.as_slice()) {
                let seg = ultimo_segmento_de(caracteres(info.unico).as_slice());
                if iguais_sem_caixa(seg.as_slice(), n.as_slice()) {
                    return Some(Codigo(i));
                }
                if achado.is_none() {
                    achado = Some(i);
                }
            }
            i = i + 1;
        }
        match achado {
            Some(a) => Some(Codigo(a)),
            None => None,
        }
    }
}

/// The segment after the last `'.'` (`rsplit('.').next()`).
pub open spec fn ultimo_segmento(u: Seq<char>) -> Seq<char> {
    u.skip(inicio_do_ultimo_segmento(u, u.len() as int))
}

pub open spec fn inicio_do_ultimo_segmento(u: Seq<char>, j: int) -> int
    decreases j,
{
    if j <= 0 {
        0
    } else if u[j - 1] == '.' {
        j
    } else {
        inicio_do_ultimo_segmento(u, j - 1)
    }
}

/// Two characters equal once ASCII letters are put in lower case.
pub open spec fn letra_igual(x: char, y: char) -> bool {
    ||| x == y
    ||| ('A' <= x && x <= 'Z' && (x as u32) + 32 == (y as u32))
    ||| ('A' <= y && y <= 'Z' && (y as u32) + 32 == (x as u32))
}

/// `eq_ignore_ascii_case`.
pub open spec fn iguais_ignorando_caixa(a: Seq<char>, b: Seq<char>) -> bool {
    a.len() == b.len() && forall|i: int| 0 <= i < a.len() ==> letra_igual(#[trigger] a[i], b[i])
}

/// The first entry, from `j` on, whose `uniqueName` is `u`.
pub open spec fn busca_unico(u: Seq<char>, j: int) -> Option<int>
    decreases NUMERO_DE_CODIGOS - j,
{
    if j < 0 || j >= NUMERO_DE_CODIGOS {
        None
    } else if entrada(j).unico@ == u {
        Some(j)
    } else {
        busca_unico(u, j + 1)
    }
}

/// Along the increasing order of the unique names, an earlier place holds a
/// smaller name.
proof fn lemma_ordem_cresce(k1: int, k2: int)
    requires
        0 <= k1 < k2 < NUMERO_DE_CODIGOS,
    ensures
        lex_menor(entrada(ordem(k1)).unico@, entrada(ordem(k2)).unico@),
    decreases k2 - k1,
{
    lemma_cresce(k2 - 1);
    if k1 < k2 - 1 {
        lemma_ordem_cresce(k1, k2 - 1);
        lemma_lex_transitiva(
            entrada(ordem(k1)).unico@,
            entrada(ordem(k2 - 1)).unico@,
            entrada(ordem(k2)).unico@,
        );
    }
}

/// The unique names of the table are all different.
pub proof fn unicos_distintos(i: int, j: int)
    requires
        0 <= i < NUMERO_DE_CODIGOS,
        0 <= j < NUMERO_DE_CODIGOS,
        i != j,
    ensures
        entrada(i).unico@ != entrada(j).unico@,
{
    lemma_volta(i);
    lemma_volta(j);
    let a = entrada(i).unico@;
    let b = entrada(j).unico@;
    if posicao(i) < posicao(j) {
        lemma_ordem_cresce(posicao(i), posicao(j));
    } else {
        lemma_ordem_cresce(posicao(j), posicao(i));
    }
    lemma_lex_assimetrica(a, b);
}

proof fn lemma_busca_unico(i: int, j: int)
    requires
        0 <= j <= i < NUMERO_DE_CODIGOS,
    ensures
        busca_unico(entrada(i).unico@, j) == Some(i),
    decreases i - j,
{
    if j < i {
        unicos_distintos(j, i);
        lemma_busca_unico(i, j + 1);
    }
}

/// Each code is found by its unique name: `por_unico` of the unique name of
/// entry `i` gives the code of entry `i` back, which is what lets a code
/// travel as its unique name.
pub proof fn codigo_volta_pelo_nome_unico(i: int)
    requires
        0 <= i < NUMERO_DE_CODIGOS,
    ensures
        busca_unico(entrada(i).unico@, 0) == Some(i),
{
    lemma_busca_unico(i, 0);
}

/// The `uniqueName` of the code ends with its reported name.
pub open spec fn proprio(info: InfoCodigo, nome: Seq<char>) -> bool {
    iguais_ignorando_caixa(ultimo_segmento(info.unico@), nome)
}

fn ultimo_segmento_de(u: &[char]) -> (r: Vec<char>)
    ensures
        r@ == ultimo_segmento(u@),
{
    let mut j: usize = u.len();
    while j > 0 && u[j - 1] != '.'
        invariant
            j <= u@.len(),
            inicio_do_ultimo_segmento(u@, j as int) == inicio_do_ultimo_segmento(
                u@,
                u@.len() as int,
            ),
        decreases j,
    {
        j = j - 1;
    }
    let r = crate::texto::copiar(u, j, u.len());
    assert(r@ =~= u@.skip(j as int));
    r
}

fn iguais_sem_caixa(a: &[char], b: &[char]) -> (r: bool)
    ensures
        r == iguais_ignorando_caixa(a@, b@),
{
    if a.len() != b.len() {
        return false;
    }
    let mut i: usize = 0;
    while i < a.len()
        invariant
            a@.len() == b@.len(),
            i <= a@.len(),
            forall|k: int| 0 <= k < i ==> letra_igual(#[trigger] a@[k], b@[k]),
        decreases a.len() - i,
    {
        let x = a[i];
        let y = b[i];
        let igual = x == y || ('A' <= x && x <= 'Z' && (x as u32) + 32 == (y as u32)) || ('A' <= y
            && y <= 'Z' && (y as u32) + 32 == (x as u32));
        if !igual {
            return false;
        }
        i = i + 1;
    }
    true
}

// ---------------------------------------------------------------- templates

/// `m.skip(i)` rendered with `args` as the analyzer's `formatList` does:
/// each `{n}` with an argument `n` becomes that argument; the rest stays.
pub open spec fn formatado_desde(m: Seq<char>, args: Seq<Seq<char>>, i: int) -> Seq<char>
    decreases m.len() - i,
{
    if i < 0 || i >= m.len() {
        Seq::empty()
    } else if m[i] != '{' {
        seq![m[i]] + formatado_desde(m, args, i + 1)
    } else {
        let d = digitos_desde(m, i + 1);
        let f = i + 1 + d.len();
        proof {
            crate::texto::lemma_primeiro(m, i + 1, crate::texto::nao_digito());
        }
        if d.len() > 0 && f < m.len() && m[f] == '}' {
            let n = valor_decimal(d);
            (if n < args.len() {
                args[n as int]
            } else {
                m.subrange(i, f + 1)
            }) + formatado_desde(m, args, f + 1)
        } else {
            seq!['{'] + formatado_desde(m, args, i + 1)
        }
    }
}

/// A template rendered with its arguments. Without arguments the template
/// comes back intact, as in the analyzer.
pub open spec fn formatado(m: Seq<char>, args: Seq<Seq<char>>) -> Seq<char> {
    if args.len() == 0 {
        m
    } else {
        formatado_desde(m, args, 0)
    }
}

/// At `i`, `m` holds a placeholder `{n}` for which there is an argument.
pub open spec fn marcador_com_argumento(m: Seq<char>, nargs: nat, i: int) -> bool {
    let d = digitos_desde(m, i + 1);
    let f = i + 1 + d.len();
    &&& m[i] == '{'
    &&& d.len() > 0
    &&& f < m.len()
    &&& m[f] == '}'
    &&& valor_decimal(d) < nargs
}

proof fn lemma_formatado_intacto(m: Seq<char>, args: Seq<Seq<char>>, i: int)
    requires
        0 <= i <= m.len(),
        forall|k: int| 0 <= k < m.len() ==> !#[trigger] marcador_com_argumento(m, args.len(), k),
    ensures
        formatado_desde(m, args, i) == m.skip(i),
    decreases m.len() - i,
{
    if i < m.len() {
        assert(!marcador_com_argumento(m, args.len(), i));
        crate::texto::lemma_primeiro(m, i + 1, crate::texto::nao_digito());
        let d = digitos_desde(m, i + 1);
        let f = i + 1 + d.len();
        if m[i] == '{' && d.len() > 0 && f < m.len() && m[f] == '}' {
            lemma_formatado_intacto(m, args, f + 1);
            assert(m.subrange(i, f + 1) + m.skip(f + 1) =~= m.skip(i));
        } else {
            lemma_formatado_intacto(m, args, i + 1);
            assert(seq![m[i]] + m.skip(i + 1) =~= m.skip(i));
        }
    } else {
        assert(m.skip(i) =~= Seq::<char>::empty());
    }
}

/// A template comes back intact when it holds no placeholder for which there
/// is an argument: an index without an argument stays as it is.
pub proof fn formatar_sem_argumento_preserva(m: Seq<char>, args: Seq<Seq<char>>)
    requires
        forall|k: int| 0 <= k < m.len() ==> !#[trigger] marcador_com_argumento(m, args.len(), k),
    ensures
        formatado(m, args) == m,
{
    if args.len() > 0 {
        lemma_formatado_intacto(m, args, 0);
        assert(m.skip(0) =~= m);
    }
}

/// Renders a template as the analyzer's `formatList`: each `{n}` becomes
/// `args[n]`. Without arguments the template comes back intact. An index
/// without an argument stays as it is.
pub fn formatar(molde: &str, args: &[String]) -> (r: String)
    ensures
        r@ == formatado(molde@, textos(args@)),
{
    if args.len() == 0 {
        return molde.to_owned();
    }
    let m = caracteres(molde);
    let ghost a = textos(args@);
    let mut out = String::new();
    let mut i: usize = 0;
    while i < m.len()
        invariant
            i <= m@.len(),
            m@ == molde@,
            a == textos(args@),
            out@ + formatado_desde(m@, a, i as int) == formatado_desde(m@, a, 0),
        decreases m.len() - i,
    {
        let ghost antes = out@;
        if m[i] != '{' {
            empurrar(&mut out, m[i]);
            assert(formatado_desde(m@, a, i as int) == seq![m@[i as int]] + formatado_desde(m@, a, i + 1));
            assert(out@ + formatado_desde(m@, a, i + 1) =~= antes + formatado_desde(m@, a, i as int));
            i = i + 1;
        } else {
            let d = digitos_a_partir(m.as_slice(), i + 1);
            proof {
                crate::texto::lemma_primeiro(m@, i + 1, crate::texto::nao_digito());
            }
            let f = i + 1 + d.len();
            if d.len() > 0 && f < m.len() && m[f] == '}' {
                let ghost valor = valor_decimal(d@);
                let lido = valor_ate(d.as_slice(), usize::MAX as u64);
                assert(a.len() == args@.len());
                let indice: usize = match lido {
                    Some(n) => n as usize,
                    None => args.len(),
                };
                if indice < args.len() {
                    out.append(args[indice].as_str());
                    assert(a[indice as int] == args@[indice as int]@);
                    assert(formatado_desde(m@, a, i as int) == a[valor as int] + formatado_desde(m@, a, f + 1));
                } else {
                    let literal = crate::texto::copiar(m.as_slice(), i, f + 1);
                    anexar(&mut out, literal.as_slice());
                    assert(formatado_desde(m@, a, i as int) == m@.subrange(i as int, f + 1) + formatado_desde(m@, a, f + 1));
                }
                assert(out@ + formatado_desde(m@, a, f + 1) =~= antes + formatado_desde(m@, a, i as int));
                i = f + 1;
            } else {
                empurrar(&mut out, '{');
                assert(formatado_desde(m@, a, i as int) == seq!['{'] + formatado_desde(m@, a, i + 1));
                assert(out@ + formatado_desde(m@, a, i + 1) =~= antes + formatado_desde(m@, a, i as int));
                i = i + 1;
            }
        }
    }
    assert(out@ + formatado_desde(m@, a, m@.len() as int) =~= out@);
    out
}

// ---------------------------------------------------------------- diagnostics

/// An error with its location in the source code.
#[derive(Debug, Clone, PartialEq, Eq)]
pub struct Diagnostic {
    /// Readable explanation. With a code, the official template rendered
    /// with `args`.
    pub message: String,
    /// The region of code the problem is about.
    pub span: Span,
    /// The analyzer code, when the diagnostic has parity with one.
    pub code: Option<Codigo>,
    /// Effective severity (the code's, unless reconfigured). Without a code, `Error`.
    pub severity: Severidade,
    /// The arguments of the template, in the order of the `{n}`.
    pub args: Vec<String>,
}

/// The text a diagnostic is displayed as.
pub open spec fn texto_do_diagnostico(d: Diagnostic) -> Seq<char> {
    (match d.code {
        Some(c) => entrada(c@ as int).nome@ + ": "@,
        None => Seq::empty(),
    }) + d.message@ + " at bytes "@ + decimal(d.span.start as nat) + ".."@ + decimal(
        d.span.end as nat,
    )
}

/// The text of a diagnostic shows its own message, whatever it is: the
/// name of its code and `": "` when it has one, then the message, then
/// `" at bytes "` and its interval.
pub proof fn texto_mostra_a_mensagem(d: Diagnostic)
    ensures
        texto_do_diagnostico(d) == (match d.code {
            Some(c) => entrada(c@ as int).nome@ + ": "@,
            None => Seq::<char>::empty(),
        }) + d.message@ + " at bytes "@ + decimal(d.span.start as nat) + ".."@ + decimal(
            d.span.end as nat,
        ),
{
}

/// Two diagnostics with the same code and interval are shown alike but for
/// their messages: each text is the same start, its own message, and the
/// same end.
pub proof fn texto_so_muda_com_a_mensagem(d1: Diagnostic, d2: Diagnostic)
    requires
        d1.code == d2.code,
        d1.span == d2.span,
    ensures
        ({
            let inicio = match d1.code {
                Some(c) => entrada(c@ as int).nome@ + ": "@,
                None => Seq::<char>::empty(),
            };
            let fim = " at bytes "@ + decimal(d1.span.start as nat) + ".."@ + decimal(
                d1.span.end as nat,
            );
            &&& texto_do_diagnostico(d1) == inicio + d1.message@ + fim
            &&& texto_do_diagnostico(d2) == inicio + d2.message@ + fim
        }),
{
    assert(texto_do_diagnostico(d1) =~= (match d1.code {
        Some(c) => entrada(c@ as int).nome@ + ": "@,
        None => Seq::<char>::empty(),
    }) + d1.message@ + (" at bytes "@ + decimal(d1.span.start as nat) + ".."@ + decimal(
        d1.span.end as nat,
    )));
    assert(texto_do_diagnostico(d2) =~= (match d1.code {
        Some(c) => entrada(c@ as int).nome@ + ": "@,
        None => Seq::<char>::empty(),
    }) + d2.message@ + (" at bytes "@ + decimal(d1.span.start as nat) + ".."@ + decimal(
        d1.span.end as nat,
    )));
}

impl Diagnostic {
    /// A diagnostic without a code, keeping the message and the interval.
    pub fn new(message: &str, span: Span) -> (d: Diagnostic)
        ensures
            d.message@ == message@,
            d.span == span,
            d.code is None,
            d.severity == Severidade::Error,
            d.args@.len() == 0,
    {
        Diagnostic {
            message: message.to_owned(),
            span,
            code: None,
            severity: Severidade::Error,
            args: Vec::new(),
        }
    }

    /// A diagnostic with a code: the message comes from the official template.
    pub fn com_codigo(code: Codigo, span: Span, args: Vec<String>) -> (d: Diagnostic)
        ensures
            d.message@ == formatado(entrada(code@ as int).mensagem@, textos(args@)),
            d.span == span,
            d.code == Some(code),
            d.severity == entrada(code@ as int).severidade,
            d.args == args,
    {
        let info = code.info();
        let message = formatar(info.mensagem, args.as_slice());
        Diagnostic { message, span, code: Some(code), severity: info.severidade, args }
    }

    /// The correction rendered from the official template, when the code has one.
    pub fn correcao(&self) -> (r: Option<String>)
        ensures
            match self.code {
                None => r is None,
                Some(c) => match entrada(c@ as int).correcao {
                    None => r is None,
                    Some(m) => r matches Some(t) && t@ == formatado(m@, textos(self.args@)),
                },
            },
    {
        let c = match self.code {
            Some(c) => c,
            None => {
                return None;
            },
        };
        match c.info().correcao {
            Some(m) => Some(formatar(m, self.args.as_slice())),
            None => None,
        }
    }

    /// The message with its interval of bytes (and the code's name before it).
    pub fn texto(&self) -> (r: String)
        ensures
            r@ == texto_do_diagnostico(*self),
    {
        let mut s = String::new();
        match self.code {
            Some(c) => {
                s.append(c.info().nome);
                s.append(": ");
            },
            None => {},
        }
        s.append(self.message.as_str());
        s.append(" at bytes ");
        escrever_decimal(&mut s, self.span.start as u64);
        s.append("..");
        escrever_decimal(&mut s, self.span.end as u64);
        s
    }
}

} // verus!
