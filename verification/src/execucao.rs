//! What to run for each program, and on how many workers. Running the
//! programs, and the threads that do it, are the application's part.
use vstd::prelude::*;

use crate::relatorio::{comparacao, comparacao_caracterizada, forge_diverge, Resultado};

verus! {

/// What to run for each program.
#[derive(Debug, Clone, Copy, PartialEq, Eq, Structural)]
pub struct Opcoes {
    /// Run the compiler under test too (otherwise only the two oracles).
    pub com_forge: bool,
    /// Number of workers; 0 means as many as the machine has cores.
    pub threads: usize,
    /// Run the native AOT backend, compared against the VM.
    pub nativo: bool,
    /// Run the production profile of the JavaScript backend as well.
    pub com_producao: bool,
}

impl Default for Opcoes {
    fn default() -> (r: Opcoes)
        ensures
            r == (Opcoes { com_forge: true, threads: 0, nativo: false, com_producao: false }),
    {
        Opcoes { com_forge: true, threads: 0, nativo: false, com_producao: false }
    }
}

/// The executors that one program goes through.
#[derive(Debug, Clone, Copy, PartialEq, Eq, Structural)]
pub struct Plano {
    /// The JavaScript contract oracle; in native mode it is not run and its
    /// output is left empty with code 0.
    pub ddc: bool,
    /// The compiler under test, on its JavaScript backend.
    pub forge_js: bool,
    /// The compiler under test, on its native backend.
    pub forge_nativo: bool,
    /// The production profile of the JavaScript backend, beside either mode.
    pub producao: bool,
}

/// Which executors a program goes through under `op` (the VM oracle always).
pub fn plano(op: &Opcoes) -> (p: Plano)
    ensures
        p.ddc == !op.nativo,
        p.forge_js == (op.com_forge && !op.nativo),
        p.forge_nativo == (op.com_forge && op.nativo),
        p.producao == op.com_producao,
{
    Plano {
        ddc: !op.nativo,
        forge_js: op.com_forge && !op.nativo,
        forge_nativo: op.com_forge && op.nativo,
        producao: op.com_producao,
    }
}

/// The number of workers: the one asked for, or the machine's when 0 was
/// asked (4 when the machine does not say), at least 1 and no more than the
/// programs (or 1 when there are none).
pub open spec fn trabalhadores(pedidos: usize, da_maquina: Option<usize>, programas: usize) -> int {
    let n: int = if pedidos == 0 {
        match da_maquina {
            Some(m) => m as int,
            None => 4,
        }
    } else {
        pedidos as int
    };
    let n = if n < 1 { 1 } else { n };
    let teto: int = if programas < 1 { 1 } else { programas as int };
    if n < teto { n } else { teto }
}

/// The number of workers that run the corpus.
pub fn numero_de_trabalhadores(pedidos: usize, da_maquina: Option<usize>, programas: usize) -> (r: usize)
    ensures
        r == trabalhadores(pedidos, da_maquina, programas),
        1 <= r,
        r <= programas || programas == 0,
{
    let n: usize = if pedidos == 0 {
        match da_maquina {
            Some(m) => m,
            None => 4,
        }
    } else {
        pedidos
    };
    let n: usize = if n < 1 { 1 } else { n };
    let teto: usize = if programas < 1 { 1 } else { programas };
    if n < teto { n } else { teto }
}

/// `op` with the default number of workers of the heavy modes: natively, and
/// with the production profile, each program is a process that takes much
/// memory, so "as many as the cores" becomes 2 there; an explicit number stays.
pub fn com_trabalhadores_padrao(op: Opcoes) -> (r: Opcoes)
    ensures
        r == (if (op.nativo || op.com_producao) && op.threads == 0 {
            Opcoes { threads: 2, ..op }
        } else {
            op
        }),
{
    if (op.nativo || op.com_producao) && op.threads == 0 {
        Opcoes { threads: 2, ..op }
    } else {
        op
    }
}

/// The label shown for a program as soon as it has run.
pub open spec fn estado_de(r: Resultado) -> Seq<char> {
    if r.producao is Some {
        if r.forge is Some && forge_diverge(r) is None {
            "ok"@
        } else if forge_diverge(r) is Some {
            "FALHA"@
        } else {
            "PROD!"@
        }
    } else if r.forge is Some {
        if forge_diverge(r) is None {
            "ok"@
        } else {
            "FALHA"@
        }
    } else if r.dart.codigo != 0 {
        "DART!"@
    } else if r.nativo {
        "DART"@
    } else if (comparacao(r.dart, r.ddc) is None) == (r.programa.diverge_ddc is None) {
        "ok"@
    } else {
        "DDC≠VM"@
    }
}

/// The label shown for a program as soon as it has run.
pub fn estado(r: &Resultado) -> (s: &'static str)
    ensures
        s@ == estado_de(*r),
{
    if r.producao.is_some() {
        if r.ok() {
            "ok"
        } else if r.forge_vs_referencia().is_some() {
            "FALHA"
        } else {
            "PROD!"
        }
    } else if r.forge.is_some() {
        if r.ok() {
            "ok"
        } else {
            "FALHA"
        }
    } else if r.dart.codigo != 0 {
        "DART!"
    } else if r.nativo {
        "DART"
    } else if r.ddc_vs_dart().is_none() == r.programa.diverge_ddc.is_none() {
        "ok"
    } else {
        "DDC≠VM"
    }
}

/// Whether one result counts as a success of the run under `op`: DartForge
/// reproduces its reference when it runs; otherwise the VM exits with 0 and,
/// on the web, the DDC diverges from it exactly when the header says so.
pub open spec fn bem_sucedido(r: Resultado, op: Opcoes) -> bool {
    if op.com_forge {
        r.forge is Some && forge_diverge(r) is None
    } else if op.nativo {
        r.dart.codigo == 0
    } else {
        r.dart.codigo == 0 && ((comparacao(r.dart, r.ddc) is None) != (r.programa.diverge_ddc is Some))
    }
}

/// Whether the run succeeded: every result does.
pub fn todos_bem_sucedidos(resultados: &[Resultado], op: &Opcoes) -> (r: bool)
    ensures
        r == (forall|i: int| 0 <= i < resultados@.len() ==> bem_sucedido(#[trigger] resultados@[i], *op)),
{
    let mut i: usize = 0;
    while i < resultados.len()
        invariant
            i <= resultados@.len(),
            forall|k: int| 0 <= k < i ==> bem_sucedido(#[trigger] resultados@[k], *op),
        decreases resultados.len() - i,
    {
        let r = &resultados[i];
        let bom = if op.com_forge {
            r.ok()
        } else if op.nativo {
            r.dart.codigo == 0
        } else {
            r.dart.codigo == 0 && (r.ddc_vs_dart().is_none() != r.programa.diverge_ddc.is_some())
        };
        if !bom {
            assert(!bem_sucedido(resultados@[i as int], *op));
            return false;
        }
        i = i + 1;
    }
    true
}

/// How many workers run the corpus, in terms of what was asked: a number
/// asked for is kept, whatever the machine has; with 0 the machine's count
/// is used (4 when it does not say); and the result is at least 1 and at
/// most the number of programs (1 when there are none).
pub proof fn trabalhadores_pedidos(pedidos: usize, da_maquina: Option<usize>, programas: usize)
    ensures
        ({
            let teto: int = if programas == 0 { 1 } else { programas as int };
            let r = trabalhadores(pedidos, da_maquina, programas);
            &&& 1 <= r <= teto
            &&& pedidos > 0 ==> r == (if pedidos < teto { pedidos as int } else { teto })
            &&& (pedidos == 0 && da_maquina is None) ==> r == (if 4 < teto { 4 } else { teto })
            &&& (pedidos == 0 && da_maquina is Some) ==> r == (if da_maquina.unwrap() == 0 {
                1
            } else if da_maquina.unwrap() < teto {
                da_maquina.unwrap() as int
            } else {
                teto
            })
        }),
        pedidos > 0 ==> forall|outra: Option<usize>|
            trabalhadores(pedidos, da_maquina, programas) == #[trigger] trabalhadores(
                pedidos,
                outra,
                programas,
            ),
{
}

/// When a result counts as a success, in terms of the outputs themselves:
/// with DartForge, its stdout and exit code equal those of its reference
/// (the DDC on the web when the header declares a divergence, else the VM);
/// natively without it, the VM exits with 0; on the web without it, the VM
/// exits with 0 and the DDC differs from the VM exactly when the header
/// declares that it does.
pub proof fn sucesso_pelas_saidas(r: Resultado, op: Opcoes)
    ensures
        op.com_forge ==> (bem_sucedido(r, op) <==> (r.forge is Some && ({
            let f = r.forge.unwrap();
            let referencia = if !r.nativo && r.programa.diverge_ddc is Some {
                r.ddc
            } else {
                r.dart
            };
            f.stdout@ == referencia.stdout@ && f.codigo == referencia.codigo
        }))),
        !op.com_forge && op.nativo ==> (bem_sucedido(r, op) <==> r.dart.codigo == 0),
        !op.com_forge && !op.nativo ==> (bem_sucedido(r, op) <==> (r.dart.codigo == 0 && ((
        r.dart.stdout@ != r.ddc.stdout@ || r.dart.codigo != r.ddc.codigo)
            <==> r.programa.diverge_ddc is Some))),
{
    comparacao_caracterizada(r.dart, r.ddc);
    if r.forge is Some {
        comparacao_caracterizada(r.dart, r.forge.unwrap());
        comparacao_caracterizada(r.ddc, r.forge.unwrap());
    }
}

} // verus!
