//! What a process left behind (stdout, stderr, exit code), and the decisions
//! taken while capturing it. Starting the process and reading its pipes is
//! the application's part.
use vstd::prelude::*;

use crate::texto::{
    caracteres, decimal, escrever_decimal, escrever_juntos, juntar, linhas, linhas_nao_brancas,
    nao_brancas, texto_de, vistas,
};

verus! {

/// Output of a process (or of a whole oracle): stdout, stderr and exit code.
#[derive(Debug, Clone, PartialEq, Eq)]
pub struct Saida {
    pub stdout: String,
    pub stderr: String,
    pub codigo: i32,
}

/// The first line of `s` that holds something besides whitespace, without
/// trailing whitespace; empty when there is none.
pub open spec fn primeira_nao_branca(s: Seq<char>) -> Seq<char> {
    let ls = nao_brancas(linhas(s));
    if ls.len() > 0 {
        ls[0]
    } else {
        Seq::empty()
    }
}

impl Saida {
    /// Synthetic failure of the harness itself (missing tool, time out...).
    pub fn erro(mensagem: String) -> (r: Saida)
        ensures
            r.stdout@ == Seq::<char>::empty(),
            r.stderr@ == mensagem@,
            r.codigo == -1,
    {
        Saida { stdout: String::new(), stderr: mensagem, codigo: -1 }
    }

    /// First non-blank line of stderr: the grouping key of the report.
    pub fn primeira_linha_stderr(&self) -> (r: String)
        ensures
            r@ == primeira_nao_branca(self.stderr@),
    {
        let cs = caracteres(self.stderr.as_str());
        let ls = linhas_nao_brancas(cs.as_slice());
        if ls.len() > 0 {
            texto_de(ls[0].as_slice())
        } else {
            String::new()
        }
    }
}

/// Exit code given when the process exceeds its time limit.
pub const CODIGO_TEMPO_ESGOTADO: i32 = -2;

/// Most the harness keeps of the stdout or stderr of ONE process.
pub const TETO_CAPTURA: usize = 4194304;

/// Keeps what still fits of one chunk read from a pipe and counts the rest
/// as discarded.
pub fn guardar_pedaco(acumulado: &mut Vec<u8>, descartados: &mut usize, pedaco: &[u8])
    requires
        old(acumulado)@.len() <= TETO_CAPTURA,
        *old(descartados) + pedaco@.len() <= usize::MAX,
    ensures
        ({
            let cabe = if TETO_CAPTURA - old(acumulado)@.len() < pedaco@.len() {
                TETO_CAPTURA - old(acumulado)@.len()
            } else {
                pedaco@.len() as int
            };
            &&& final(acumulado)@ == old(acumulado)@ + pedaco@.take(cabe)
            &&& *final(descartados) == *old(descartados) + pedaco@.len() - cabe
        }),
        final(acumulado)@.len() <= TETO_CAPTURA,
        (final(acumulado)@, *final(descartados) as nat) == passo_da_captura(
            old(acumulado)@,
            *old(descartados) as nat,
            pedaco@,
        ),
{
    let n = pedaco.len();
    let livre = TETO_CAPTURA - acumulado.len();
    let cabe = if livre < n { livre } else { n };
    let mut i: usize = 0;
    let ghost inicial = acumulado@;
    while i < cabe
        invariant
            cabe <= pedaco@.len(),
            i <= cabe,
            acumulado@ == inicial + pedaco@.take(i as int),
        decreases cabe - i,
    {
        acumulado.push(pedaco[i]);
        i = i + 1;
        assert(acumulado@ =~= inicial + pedaco@.take(i as int));
    }
    *descartados = *descartados + (n - cabe);
}

/// What one chunk does to what was kept and to the count of what was
/// discarded: it keeps what still fits under the limit.
pub open spec fn passo_da_captura(acumulado: Seq<u8>, descartados: nat, pedaco: Seq<u8>) -> (
    Seq<u8>,
    nat,
) {
    let livre = TETO_CAPTURA - acumulado.len();
    let cabe = if livre < pedaco.len() { livre } else { pedaco.len() as int };
    (acumulado + pedaco.take(cabe), (descartados + pedaco.len() - cabe) as nat)
}

/// The chunks read, one after the other.
pub open spec fn juntos(pedacos: Seq<Seq<u8>>) -> Seq<u8>
    decreases pedacos.len(),
{
    if pedacos.len() == 0 {
        Seq::empty()
    } else {
        juntos(pedacos.drop_last()) + pedacos.last()
    }
}

/// What is kept, and how much is discarded, once the chunks have been read.
pub open spec fn captura(pedacos: Seq<Seq<u8>>) -> (Seq<u8>, nat)
    decreases pedacos.len(),
{
    if pedacos.len() == 0 {
        (Seq::empty(), 0)
    } else {
        let (a, d) = captura(pedacos.drop_last());
        passo_da_captura(a, d, pedacos.last())
    }
}

/// Over a whole stream read in chunks, what is kept is the start of the
/// stream, up to the limit, and what is discarded is counted: the rest.
pub proof fn captura_guarda_o_comeco(pedacos: Seq<Seq<u8>>)
    ensures
        ({
            let t = juntos(pedacos);
            let m = if t.len() < TETO_CAPTURA { t.len() as int } else { TETO_CAPTURA as int };
            &&& captura(pedacos).0 == t.take(m)
            &&& captura(pedacos).1 == t.len() - m
        }),
    decreases pedacos.len(),
{
    if pedacos.len() > 0 {
        captura_guarda_o_comeco(pedacos.drop_last());
        let t0 = juntos(pedacos.drop_last());
        let p = pedacos.last();
        let t = juntos(pedacos);
        assert(t == t0 + p);
        if t0.len() >= TETO_CAPTURA {
            assert(t0.take(TETO_CAPTURA as int) =~= t.take(TETO_CAPTURA as int));
            assert(p.take(0) =~= Seq::<u8>::empty());
            assert(t0.take(TETO_CAPTURA as int) + p.take(0) =~= t.take(TETO_CAPTURA as int));
        } else {
            let livre = TETO_CAPTURA - t0.len();
            let cabe = if livre < p.len() { livre } else { p.len() as int };
            assert(t0.take(t0.len() as int) =~= t0);
            assert(t0 + p.take(cabe) =~= t.take(t0.len() + cabe));
        }
    } else {
        assert(juntos(pedacos).take(0) =~= Seq::<u8>::empty());
    }
}

/// The notice appended when bytes were discarded.
pub open spec fn aviso_de_truncamento(descartados: nat) -> Seq<char> {
    "\n[saída truncada pelo harness: mais "@ + decimal(descartados) + " bytes]\n"@
}

/// What was captured, with the notice of truncation when something was discarded.
pub fn encerrar_captura(acumulado: Vec<u8>, descartados: usize) -> (r: Vec<u8>)
    ensures
        descartados == 0 ==> r@ == acumulado@,
        descartados > 0 ==> r@ == acumulado@ + vstd::utf8::encode_utf8(
            aviso_de_truncamento(descartados as nat),
        ),
{
    if descartados == 0 {
        return acumulado;
    }
    let mut aviso = String::new();
    aviso.append("\n[saída truncada pelo harness: mais ");
    escrever_decimal(&mut aviso, descartados as u64);
    aviso.append(" bytes]\n");
    let bytes = aviso.as_str().as_bytes();
    let mut r = acumulado;
    let ghost inicial = r@;
    let mut i: usize = 0;
    while i < bytes.len()
        invariant
            i <= bytes@.len(),
            r@ == inicial + bytes@.take(i as int),
        decreases bytes.len() - i,
    {
        r.push(bytes[i]);
        i = i + 1;
        assert(r@ =~= inicial + bytes@.take(i as int));
    }
    assert(bytes@.take(bytes@.len() as int) =~= bytes@);
    r
}

/// How the wait for a child process ended.
#[derive(Debug, Clone, Copy, PartialEq, Eq)]
pub enum Termino {
    /// It exited; with the exit code when the platform gives one.
    Saiu(Option<i32>),
    /// It was killed after exceeding the time limit.
    TempoEsgotado,
    /// Waiting for it failed.
    Falhou,
}

/// The stderr reported for a process killed after `segundos` seconds.
pub open spec fn stderr_de_tempo_esgotado(
    segundos: nat,
    programa: Seq<char>,
    args: Seq<Seq<char>>,
    stderr: Seq<char>,
) -> Seq<char> {
    "tempo esgotado ("@ + decimal(segundos) + " s): "@ + programa + " "@ + juntar(args, " "@)
        + "\n"@ + stderr
}

/// The output of a process once its pipes are read and its wait is over.
pub fn concluir_execucao(
    stdout: String,
    stderr: String,
    termino: Termino,
    limite_segundos: u64,
    programa: &str,
    args: &[Vec<char>],
) -> (r: Saida)
    ensures
        r.stdout == stdout,
        r.codigo == match termino {
            Termino::Saiu(Some(c)) => c,
            Termino::Saiu(None) => -3i32,
            Termino::TempoEsgotado => CODIGO_TEMPO_ESGOTADO,
            Termino::Falhou => -3i32,
        },
        termino is TempoEsgotado ==> r.stderr@ == stderr_de_tempo_esgotado(
            limite_segundos as nat,
            programa@,
            vistas(args@),
            stderr@,
        ),
        !(termino is TempoEsgotado) ==> r.stderr == stderr,
{
    match termino {
        Termino::Saiu(Some(c)) => Saida { stdout, stderr, codigo: c },
        Termino::Saiu(None) => Saida { stdout, stderr, codigo: -3 },
        Termino::Falhou => Saida { stdout, stderr, codigo: -3 },
        Termino::TempoEsgotado => {
            let mut e = String::new();
            e.append("tempo esgotado (");
            escrever_decimal(&mut e, limite_segundos);
            e.append(" s): ");
            e.append(programa);
            e.append(" ");
            escrever_juntos(&mut e, args, " ");
            e.append("\n");
            e.append(stderr.as_str());
            Saida { stdout, stderr: e, codigo: CODIGO_TEMPO_ESGOTADO }
        },
    }
}

} // verus!
