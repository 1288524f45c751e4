//! The executors' decisions that do not depend on running anything: the key
//! of the cache, the rewriting of the JS of `dartdevc`, the `main.mjs`, the
//! shape given to each kind of failure. Running `dart`, `node` and the
//! compilers is the application's part.
use vstd::prelude::*;

use crate::processo::{primeira_nao_branca, Saida};
use crate::texto::{
    anexar, aparar, caracteres, comeca_com, comeca_str, copiar, decimal_com_sinal,
    digitos_a_partir, digitos_desde, dividir_linhas, escrever_decimal_com_sinal, linha_inicial,
    linhas, ocorrencia, ocorrencia_desde, primeira_linha, sem_espacos, sem_primeira,
    substituir_desde, texto_de, valor_ate, valor_decimal, vistas, empurrar, lemma_ocorrencia_posicao,
};

verus! {

// ---------------------------------------------------------------- paths

/// A path with `\` turned into `/`.
pub open spec fn barras(p: Seq<char>) -> Seq<char> {
    p.map_values(|c: char| if c == '\\' { '/' } else { c })
}

/// The `file://` URL of a path (absolute Unix paths and Windows paths).
pub open spec fn url_de(p: Seq<char>) -> Seq<char> {
    if comeca_com(barras(p), "/"@) {
        "file://"@ + barras(p)
    } else {
        "file:///"@ + barras(p)
    }
}

/// The `file://` URL of a path.
pub fn url_arquivo(p: &str) -> (r: String)
    ensures
        r@ == url_de(p@),
{
    let cs = caracteres(p);
    let mut b: Vec<char> = Vec::new();
    let mut i: usize = 0;
    while i < cs.len()
        invariant
            i <= cs@.len(),
            b@ == barras(cs@).take(i as int),
        decreases cs.len() - i,
    {
        let c = cs[i];
        b.push(if c == '\\' { '/' } else { c });
        assert(b@ =~= barras(cs@).take(i + 1));
        i = i + 1;
    }
    assert(barras(cs@).take(cs@.len() as int) =~= barras(cs@));
    proof {
        reveal_strlit("/");
        if b@.len() > 0 {
            assert(b@.take(1) =~= seq![b@[0]]);
        }
    }
    assert(b@ == barras(p@));
    let mut r = if b.len() > 0 && b[0] == '/' {
        assert(b@.take(1) =~= "/"@);
        assert(comeca_com(barras(p@), "/"@));
        "file://".to_owned()
    } else {
        assert(!comeca_com(barras(p@), "/"@));
        "file:///".to_owned()
    };
    anexar(&mut r, b.as_slice());
    r
}

/// Without the `\\?\` that `canonicalize` puts before paths on Windows,
/// which confuses outside tools.
pub open spec fn sem_verbatim(p: Seq<char>) -> Seq<char> {
    if comeca_com(p, "\\\\?\\"@) {
        p.skip(4)
    } else {
        p
    }
}

/// A path without the Windows `\\?\` prefix.
pub fn sem_prefixo_verbatim(p: &str) -> (r: String)
    ensures
        r@ == sem_verbatim(p@),
{
    let cs = caracteres(p);
    proof {
        reveal_strlit("\\\\?\\");
    }
    if comeca_str(cs.as_slice(), "\\\\?\\") {
        let resto = copiar(cs.as_slice(), 4, cs.len());
        assert(resto@ =~= cs@.skip(4));
        texto_de(resto.as_slice())
    } else {
        p.to_owned()
    }
}

// ---------------------------------------------------------------- cache

/// FNV-1a, 64 bits.
pub open spec fn fnv(dados: Seq<u8>) -> u64
    decreases dados.len(),
{
    if dados.len() == 0 {
        0xcbf29ce484222325u64
    } else {
        (((fnv(dados.drop_last()) ^ (dados.last() as u64)) as nat * 0x100000001b3nat)
            % 0x1_0000_0000_0000_0000nat) as u64
    }
}

/// The FNV-1a hash of the bytes.
pub fn hash_fnv(dados: &[u8]) -> (h: u64)
    ensures
        h == fnv(dados@),
{
    let mut h: u64 = 0xcbf29ce484222325;
    let mut i: usize = 0;
    while i < dados.len()
        invariant
            i <= dados@.len(),
            h == fnv(dados@.take(i as int)),
        decreases dados.len() - i,
    {
        proof {
            assert(dados@.take(i + 1).drop_last() =~= dados@.take(i as int));
            assert(dados@.take(i + 1).last() == dados@[i as int]);
        }
        h = h ^ (dados[i] as u64);
        h = h.wrapping_mul(0x100000001b3);
        i = i + 1;
    }
    assert(dados@.take(dados@.len() as int) =~= dados@);
    h
}

pub open spec fn digito_hex(d: nat) -> char {
    if d < 10 {
        crate::texto::digito_de(d)
    } else if d == 10 {
        'a'
    } else if d == 11 {
        'b'
    } else if d == 12 {
        'c'
    } else if d == 13 {
        'd'
    } else if d == 14 {
        'e'
    } else {
        'f'
    }
}

/// The last `n` hexadecimal digits of `h` (lower case, zeros on the left).
pub open spec fn hex(h: nat, n: nat) -> Seq<char>
    decreases n,
{
    if n == 0 {
        Seq::empty()
    } else {
        hex(h / 16, (n - 1) as nat).push(digito_hex(h % 16))
    }
}

fn escrever_hex(s: &mut String, h: u64, n: u32)
    ensures
        final(s)@ == old(s)@ + hex(h as nat, n as nat),
    decreases n,
{
    if n > 0 {
        escrever_hex(s, h / 16, n - 1);
        let d = h % 16;
        let c = if d < 10 {
            crate::texto::digito(d)
        } else if d == 10 {
            'a'
        } else if d == 11 {
            'b'
        } else if d == 12 {
            'c'
        } else if d == 13 {
            'd'
        } else if d == 14 {
            'e'
        } else {
            'f'
        };
        empurrar(s, c);
        assert(old(s)@ + hex(h as nat, n as nat) =~= old(s)@ + hex((h / 16) as nat, (n - 1) as nat)
            + seq![c]);
    }
}

/// The content of a program that its key in the cache is taken from: for
/// each of its files, the path, a zero byte, the bytes of the file and a zero.
pub open spec fn conteudo_de(arquivos: Seq<(String, Vec<u8>)>) -> Seq<u8>
    decreases arquivos.len(),
{
    if arquivos.len() == 0 {
        Seq::empty()
    } else {
        let (nome, dados) = arquivos.last();
        conteudo_de(arquivos.drop_last()) + vstd::utf8::encode_utf8(nome@) + seq![0u8] + dados@
            + seq![0u8]
    }
}

/// The content of a program (its files, each as its path and its bytes).
pub fn conteudo(arquivos: &[(String, Vec<u8>)]) -> (r: Vec<u8>)
    ensures
        r@ == conteudo_de(arquivos@),
{
    let mut r: Vec<u8> = Vec::new();
    let mut i: usize = 0;
    while i < arquivos.len()
        invariant
            i <= arquivos@.len(),
            r@ == conteudo_de(arquivos@.take(i as int)),
        decreases arquivos.len() - i,
    {
        let ghost antes = r@;
        let (nome, dados) = &arquivos[i];
        let mut b = nome.as_str().as_bytes_vec();
        r.append(&mut b);
        r.push(0u8);
        let mut d = dados.clone();
        assert(d@ == dados@);
        r.append(&mut d);
        r.push(0u8);
        proof {
            assert(arquivos@.take(i + 1).drop_last() =~= arquivos@.take(i as int));
            assert(arquivos@.take(i + 1).last() == arquivos@[i as int]);
            assert(r@ =~= antes + vstd::utf8::encode_utf8(nome@) + seq![0u8] + dados@ + seq![0u8]);
        }
        i = i + 1;
    }
    assert(arquivos@.take(arquivos@.len() as int) =~= arquivos@);
    r
}

/// The files of emitted IR joined for their digest: for each, in the order
/// given, its name and then its bytes.
pub open spec fn ir_junto(arquivos: Seq<(String, Vec<u8>)>) -> Seq<u8>
    decreases arquivos.len(),
{
    if arquivos.len() == 0 {
        Seq::empty()
    } else {
        let (nome, dados) = arquivos.last();
        ir_junto(arquivos.drop_last()) + vstd::utf8::encode_utf8(nome@) + dados@
    }
}

/// The digest of all the IR emitted, to compare runs: the FNV hash of the
/// files (name, bytes), in the order given (the caller gives them in the
/// order of their paths).
pub fn resumo_do_ir(arquivos: &[(String, Vec<u8>)]) -> (r: u64)
    ensures
        r == fnv(ir_junto(arquivos@)),
{
    let mut dados: Vec<u8> = Vec::new();
    let mut i: usize = 0;
    while i < arquivos.len()
        invariant
            i <= arquivos@.len(),
            dados@ == ir_junto(arquivos@.take(i as int)),
        decreases arquivos.len() - i,
    {
        let ghost antes = dados@;
        let (nome, conteudo) = &arquivos[i];
        let mut b = nome.as_str().as_bytes_vec();
        dados.append(&mut b);
        let mut d = conteudo.clone();
        assert(d@ == conteudo@);
        dados.append(&mut d);
        proof {
            assert(arquivos@.take(i + 1).drop_last() =~= arquivos@.take(i as int));
            assert(arquivos@.take(i + 1).last() == arquivos@[i as int]);
            assert(dados@ =~= antes + vstd::utf8::encode_utf8(nome@) + conteudo@);
        }
        i = i + 1;
    }
    assert(arquivos@.take(arquivos@.len() as int) =~= arquivos@);
    hash_fnv(dados.as_slice())
}

/// The key of a program in the cache: the hash of its content, as 16
/// hexadecimal digits (`{:016x}`).
pub fn chave_cache(conteudo: &[u8]) -> (r: String)
    ensures
        r@ == hex(fnv(conteudo@) as nat, 16),
{
    let h = hash_fnv(conteudo);
    let mut s = String::new();
    escrever_hex(&mut s, h, 16);
    s
}

// ---------------------------------------------------------------- dartdevc + node

/// The JS with its import of `dart_sdk.js` pointed at the URL of the
/// repository's copy.
pub open spec fn js_apontado(texto: Seq<char>, url: Seq<char>) -> Seq<char> {
    substituir_desde(texto, "from 'dart_sdk.js'"@, "from '"@ + url + "'"@, 0)
}

/// Points the imports of `dart_sdk.js` at `url`.
pub fn apontar_sdk(texto: &str, url: &str) -> (r: String)
    ensures
        r@ == js_apontado(texto@, url@),
{
    let s = caracteres(texto);
    let p = caracteres("from 'dart_sdk.js'");
    let mut novo = "from '".to_owned();
    novo.append(url);
    novo.append("'");
    proof {
        reveal_strlit("from 'dart_sdk.js'");
    }
    let mut out = String::new();
    let mut i: usize = 0;
    let ghost alvo = js_apontado(texto@, url@);
    while i <= s.len()
        invariant
            i <= s@.len() + 1,
            p@ == "from 'dart_sdk.js'"@,
            p@.len() > 0,
            novo@ == "from '"@ + url@ + "'"@,
            s@ == texto@,
            alvo == js_apontado(texto@, url@),
            i <= s@.len() ==> out@ + substituir_desde(s@, p@, novo@, i as int) == alvo,
            i > s@.len() ==> out@ == alvo,
        decreases s@.len() + 1 - i,
    {
        match ocorrencia(s.as_slice(), p.as_slice(), i) {
            None => {
                let resto = copiar(s.as_slice(), i, s.len());
                anexar(&mut out, resto.as_slice());
                assert(resto@ =~= s@.skip(i as int));
                return out;
            },
            Some(k) => {
                proof {
                    lemma_ocorrencia_posicao(s@, p@, i as int);
                }
                let antes = copiar(s.as_slice(), i, k);
                anexar(&mut out, antes.as_slice());
                out.append(novo.as_str());
                i = k + p.len();
            },
        }
    }
    out
}

/// The name exported by the entry library: the first item of the line
/// `export { … };` (`export { $01_print }`, `export { hello as x__hello }`,
/// `export { main, util }`).
pub open spec fn exportado_em(js: Seq<char>) -> Option<Seq<char>> {
    match primeira_com_prefixo(linhas(js), "export {"@) {
        None => None,
        Some(linha) => {
            let interior = aparar(
                sem_sufixos(sem_sufixos(sem_prefixos(linha, "export {"@), ';'), '}'),
            );
            let primeiro = aparar(interior.take(crate::texto::primeiro(interior, 0, |c: char| c == ',')));
            let k = ocorrencia_desde(primeiro, " as "@, 0);
            if k >= 0 {
                Some(aparar(primeiro.skip(k + 4)))
            } else {
                Some(primeiro)
            }
        },
    }
}

/// The first line that starts with `p`.
pub open spec fn primeira_com_prefixo(ls: Seq<Seq<char>>, p: Seq<char>) -> Option<Seq<char>>
    decreases ls.len(),
{
    if ls.len() == 0 {
        None
    } else if comeca_com(ls[0], p) {
        Some(ls[0])
    } else {
        primeira_com_prefixo(ls.drop_first(), p)
    }
}

/// The last line that starts with `p`.
pub open spec fn ultima_com_prefixo(ls: Seq<Seq<char>>, p: Seq<char>) -> Option<Seq<char>>
    decreases ls.len(),
{
    if ls.len() == 0 {
        None
    } else if comeca_com(ls.last(), p) {
        Some(ls.last())
    } else {
        ultima_com_prefixo(ls.drop_last(), p)
    }
}

/// `s` without every leading repetition of `p` (`trim_start_matches`).
pub open spec fn sem_prefixos(s: Seq<char>, p: Seq<char>) -> Seq<char>
    decreases s.len(),
{
    if p.len() > 0 && comeca_com(s, p) {
        sem_prefixos(s.skip(p.len() as int), p)
    } else {
        s
    }
}

/// `s` without every trailing `c` (`trim_end_matches`).
pub open spec fn sem_sufixos(s: Seq<char>, c: char) -> Seq<char>
    decreases s.len(),
{
    if s.len() > 0 && s.last() == c {
        sem_sufixos(s.drop_last(), c)
    } else {
        s
    }
}

fn tirar_prefixos(s: &[char], p: &[char]) -> (r: Vec<char>)
    ensures
        r@ == sem_prefixos(s@, p@),
{
    let mut i: usize = 0;
    assert(s@.skip(0) =~= s@);
    while p.len() > 0 && crate::texto::comeca(copiar(s, i, s.len()).as_slice(), p)
        invariant
            i <= s@.len(),
            sem_prefixos(s@, p@) == sem_prefixos(s@.skip(i as int), p@),
        decreases s@.len() - i,
    {
        proof {
            assert(s@.subrange(i as int, s@.len() as int) =~= s@.skip(i as int));
            assert(s@.skip(i as int).skip(p@.len() as int) =~= s@.skip(i + p@.len()));
        }
        i = i + p.len();
    }
    assert(s@.subrange(i as int, s@.len() as int) =~= s@.skip(i as int));
    copiar(s, i, s.len())
}

fn tirar_sufixos(s: &[char], c: char) -> (r: Vec<char>)
    ensures
        r@ == sem_sufixos(s@, c),
{
    let mut j: usize = s.len();
    assert(s@.take(s@.len() as int) =~= s@);
    while j > 0 && s[j - 1] == c
        invariant
            j <= s@.len(),
            sem_sufixos(s@, c) == sem_sufixos(s@.take(j as int), c),
        decreases j,
    {
        assert(s@.take(j as int).drop_last() =~= s@.take(j - 1));
        j = j - 1;
    }
    copiar(s, 0, j)
}

/// The name exported by the entry library of a module of `dartdevc`.
pub fn nome_exportado(js: &str) -> (r: Option<String>)
    ensures
        match r {
            Some(n) => exportado_em(js@) == Some(n@),
            None => exportado_em(js@) is None,
        },
{
    let cs = caracteres(js);
    let ls = dividir_linhas(cs.as_slice());
    let ghost lv = vistas(ls@);
    let mut i: usize = 0;
    assert(lv.skip(0) =~= lv);
    while i < ls.len() && !comeca_str(ls[i].as_slice(), "export {")
        invariant
            i <= ls@.len(),
            lv == vistas(ls@),
            lv == linhas(js@),
            primeira_com_prefixo(lv, "export {"@) == primeira_com_prefixo(lv.skip(i as int), "export {"@),
        decreases ls.len() - i,
    {
        assert(lv.skip(i as int)[0] == ls@[i as int]@);
        assert(lv.skip(i as int).drop_first() =~= lv.skip(i + 1));
        i = i + 1;
    }
    if i == ls.len() {
        assert(lv.skip(i as int) =~= Seq::<Seq<char>>::empty());
        return None;
    }
    assert(lv.skip(i as int)[0] == ls@[i as int]@);
    let linha = ls[i].as_slice();
    let a = tirar_prefixos(linha, caracteres("export {").as_slice());
    let b = tirar_sufixos(a.as_slice(), ';');
    let c = tirar_sufixos(b.as_slice(), '}');
    let interior = sem_espacos(c.as_slice());
    let mut k: usize = 0;
    while k < interior.len() && interior[k] != ','
        invariant
            k <= interior@.len(),
            forall|j: int| 0 <= j < k ==> interior@[j] != ',',
        decreases interior.len() - k,
    {
        k = k + 1;
    }
    proof {
        crate::texto::lemma_primeiro_e(interior@, 0, k as int, |c: char| c == ',');
    }
    let antes_da_virgula = copiar(interior.as_slice(), 0, k);
    assert(antes_da_virgula@ =~= interior@.take(k as int));
    let primeiro = sem_espacos(antes_da_virgula.as_slice());
    let pat = caracteres(" as ");
    match ocorrencia(primeiro.as_slice(), pat.as_slice(), 0) {
        Some(j) => {
            proof {
                reveal_strlit(" as ");
                lemma_ocorrencia_posicao(primeiro@, pat@, 0);
                assert(crate::texto::ocorre_em(primeiro@, pat@, j as int));
                assert(pat@.len() == 4);
            }
            let n = primeiro.len();
            let alias = copiar(primeiro.as_slice(), j + 4, n);
            assert(alias@ =~= primeiro@.skip(j + 4));
            let t = sem_espacos(alias.as_slice());
            Some(texto_de(t.as_slice()))
        },
        None => Some(texto_de(primeiro.as_slice())),
    }
}

/// The `main.mjs` that runs the module and imitates the VM on an uncaught
/// error (exit code 255).
pub open spec fn main_mjs_de(modulo: Seq<char>, exportado: Seq<char>) -> Seq<char> {
    "process.on('uncaughtException', (e) => {\n  console.error('Unhandled exception:\\n' + e);\n  process.exit(255);\n});\nimport { "@
        + exportado + " as m } from './"@ + modulo + ".js';\nm.main();\n"@
}

/// `main.mjs` that runs `main()` of the module.
pub fn main_mjs(modulo: &str, exportado: &str) -> (r: String)
    ensures
        r@ == main_mjs_de(modulo@, exportado@),
{
    let mut s = "process.on('uncaughtException', (e) => {\n  console.error('Unhandled exception:\\n' + e);\n  process.exit(255);\n});\nimport { ".to_owned();
    s.append(exportado);
    s.append(" as m } from './");
    s.append(modulo);
    s.append(".js';\nm.main();\n");
    s
}

// ---------------------------------------------------------------- failures

/// What a failing compiler is reported as: its first non-blank stderr line,
/// or else the first line of its stdout.
pub open spec fn linha_da_falha(s: Saida) -> Seq<char> {
    if primeira_nao_branca(s.stderr@).len() == 0 {
        primeira_linha(s.stdout@)
    } else {
        primeira_nao_branca(s.stderr@)
    }
}

/// The stderr of a compiler that exited with an error, under a label.
pub open spec fn stderr_rotulado(rotulo: Seq<char>, s: Saida) -> Seq<char> {
    "["@ + rotulo + " código "@ + decimal_com_sinal(s.codigo as int) + "] "@ + linha_da_falha(s)
        + "\n"@ + s.stderr@
}

/// A failed compilation (`compile-js`, `jsprod`) with its label and first
/// line before its stderr.
pub fn rotular_falha(rotulo: &str, s: Saida) -> (r: Saida)
    ensures
        r.stdout == s.stdout,
        r.codigo == s.codigo,
        r.stderr@ == stderr_rotulado(rotulo@, s),
{
    let p = s.primeira_linha_stderr();
    let mut e = "[".to_owned();
    e.append(rotulo);
    e.append(" código ");
    escrever_decimal_com_sinal(&mut e, s.codigo as i64);
    e.append("] ");
    if p.as_str().is_empty() {
        let l = linha_inicial(caracteres(s.stdout.as_str()).as_slice());
        anexar(&mut e, l.as_slice());
    } else {
        e.append(p.as_str());
    }
    e.append("\n");
    e.append(s.stderr.as_str());
    Saida { stdout: s.stdout, stderr: e, codigo: s.codigo }
}

/// The stderr of a failed native emission: its first line, then all of it.
pub open spec fn stderr_nativo(e: Seq<char>) -> Seq<char> {
    "[compile-native] "@ + primeira_linha(e) + "\n"@ + e
}

/// A failed native compilation, with the prefix shared by the native modes.
pub fn falha_de_compilacao_nativa(e: &str) -> (r: Saida)
    ensures
        r.stdout@ == Seq::<char>::empty(),
        r.stderr@ == stderr_nativo(e@),
        r.codigo == 1,
{
    let l = linha_inicial(caracteres(e).as_slice());
    let mut s = "[compile-native] ".to_owned();
    anexar(&mut s, l.as_slice());
    s.append("\n");
    s.append(e);
    Saida { stdout: String::new(), stderr: s, codigo: 1 }
}

/// Code with which the JIT executor exits when the JIT itself fails.
pub const CODIGO_FALHA_DO_JIT: i32 = 70;

/// The JIT refusing the IR is reported as the native compiler refusing it.
pub fn normalizar_falha_do_jit(jit: Saida) -> (r: Saida)
    ensures
        jit.codigo == CODIGO_FALHA_DO_JIT && jit.stdout@.len() == 0 ==> r.stdout@.len() == 0
            && r.codigo == 1 && r.stderr@ == "[compile-native] "@ + primeira_nao_branca(
            jit.stderr@,
        ) + "\n"@ + jit.stderr@,
        !(jit.codigo == CODIGO_FALHA_DO_JIT && jit.stdout@.len() == 0) ==> r == jit,
{
    if jit.codigo == CODIGO_FALHA_DO_JIT && jit.stdout.as_str().is_empty() {
        let p = jit.primeira_linha_stderr();
        let mut e = "[compile-native] ".to_owned();
        e.append(p.as_str());
        e.append("\n");
        e.append(jit.stderr.as_str());
        Saida { stdout: String::new(), stderr: e, codigo: 1 }
    } else {
        jit
    }
}

/// The line of timings the JIT executor writes to stderr.
pub open spec fn linha_de_tempos(stderr: Seq<char>) -> Option<Seq<char>> {
    ultima_com_prefixo(linhas(stderr), "{\"llvm\""@)
}

/// The execution time (`execute_ns`) in a line of timings.
pub open spec fn tempo_em(linha: Seq<char>) -> Option<nat> {
    let k = ocorrencia_desde(linha, "\"execute_ns\":"@, 0);
    if k < 0 {
        None
    } else {
        let d = digitos_desde(linha, k + 13);
        if d.len() > 0 && valor_decimal(d) <= u64::MAX {
            Some(valor_decimal(d))
        } else {
            None
        }
    }
}

/// Takes out of stderr the JSON line of `--timings` of the JIT executor and
/// gives the execution time (nanoseconds) it carries. The line leaves stderr
/// so that it becomes no failure key and enters no comparison.
pub fn separar_tempos_do_executor(saida: &mut Saida) -> (r: Option<u64>)
    ensures
        final(saida).stdout == old(saida).stdout,
        final(saida).codigo == old(saida).codigo,
        match linha_de_tempos(old(saida).stderr@) {
            None => r is None && final(saida).stderr@ == old(saida).stderr@,
            Some(l) => final(saida).stderr@ == sem_primeira(
                sem_primeira(old(saida).stderr@, l + "\n"@),
                l,
            ) && match r {
                Some(v) => tempo_em(l) == Some(v as nat),
                None => tempo_em(l) is None,
            },
        },
{
    let cs = caracteres(saida.stderr.as_str());
    let ls = dividir_linhas(cs.as_slice());
    let ghost lv = vistas(ls@);
    let mut j: usize = ls.len();
    assert(lv.take(lv.len() as int) =~= lv);
    while j > 0 && !comeca_str(ls[j - 1].as_slice(), "{\"llvm\"")
        invariant
            j <= ls@.len(),
            lv == vistas(ls@),
            lv == linhas(old(saida).stderr@),
            cs@ == old(saida).stderr@,
            *saida == *old(saida),
            linha_de_tempos(old(saida).stderr@) == ultima_com_prefixo(lv.take(j as int), "{\"llvm\""@),
        decreases j,
    {
        assert(lv.take(j as int).last() == ls@[j - 1]@);
        assert(lv.take(j as int).drop_last() =~= lv.take(j - 1));
        j = j - 1;
    }
    if j == 0 {
        return None;
    }
    assert(lv.take(j as int).last() == ls@[j - 1]@);
    let linha = ls[j - 1].as_slice();
    let mut com_quebra = copiar(linha, 0, linha.len());
    com_quebra.push('\n');
    proof {
        reveal_strlit("\n");
    }
    assert(com_quebra@ =~= linha@ + "\n"@);
    let passo = remover_primeira(cs.as_slice(), com_quebra.as_slice());
    let final_ = remover_primeira(passo.as_slice(), linha);
    saida.stderr = texto_de(final_.as_slice());
    let chave = caracteres("\"execute_ns\":");
    proof {
        reveal_strlit("\"execute_ns\":");
    }
    match ocorrencia(linha, chave.as_slice(), 0) {
        None => None,
        Some(k) => {
            proof {
                lemma_ocorrencia_posicao(linha@, chave@, 0);
            }
            let d = digitos_a_partir(linha, k + 13);
            if d.len() == 0 {
                None
            } else {
                valor_ate(d.as_slice(), u64::MAX)
            }
        },
    }
}

/// `s` without the first occurrence of `p`.
fn remover_primeira(s: &[char], p: &[char]) -> (r: Vec<char>)
    ensures
        r@ == sem_primeira(s@, p@),
{
    let n = s.len();
    match ocorrencia(s, p, 0) {
        None => copiar(s, 0, n),
        Some(k) => {
            proof {
                lemma_ocorrencia_posicao(s@, p@, 0);
                assert(crate::texto::ocorre_em(s@, p@, k as int));
            }
            let mut r = copiar(s, 0, k);
            let resto = copiar(s, k + p.len(), n);
            let ghost a = r@;
            r.append(&mut resto.clone());
            assert(r@ =~= s@.take(k as int) + s@.skip(k + p@.len()));
            r
        },
    }
}

// ---------------------------------------------------------------- steps of the executors

/// The text of a failed emission of IR without the prefix `[emitir-ir] `
/// that the emitting thread puts before its own failures.
pub open spec fn sem_prefixo_da_emissao(e: Seq<char>) -> Seq<char> {
    if comeca_com(e, "[emitir-ir] "@) {
        e.skip(12)
    } else {
        e
    }
}

/// What the native executors report when the emission of IR failed: the
/// failure of the native compiler, on the text without its prefix.
pub fn falha_de_emissao(e: &str) -> (r: Saida)
    ensures
        r.stdout@ == Seq::<char>::empty(),
        r.stderr@ == stderr_nativo(sem_prefixo_da_emissao(e@)),
        r.codigo == 1,
{
    let cs = caracteres(e);
    proof {
        reveal_strlit("[emitir-ir] ");
    }
    if comeca_str(cs.as_slice(), "[emitir-ir] ") {
        let resto = copiar(cs.as_slice(), 12, cs.len());
        assert(resto@ =~= e@.skip(12));
        let t = texto_de(resto.as_slice());
        falha_de_compilacao_nativa(t.as_str())
    } else {
        falha_de_compilacao_nativa(e)
    }
}

/// The ahead-of-time run of the same IR beside the JIT: its output and its
/// times in nanoseconds (linking, running), and whether the object came from
/// the cache.
#[derive(Debug, Clone, PartialEq, Eq)]
pub struct AotDoMesmoIr {
    pub saida: Saida,
    pub ligacao_ns: u64,
    pub execucao_ns: u64,
    pub objeto_do_cache: bool,
}

/// What the JIT profile records of one program: whether there was IR, the
/// time of the JIT process and of the program inside it (nanoseconds), and
/// the ahead-of-time run of the same IR when it was asked for.
#[derive(Debug, Clone, PartialEq, Eq)]
pub struct ExecucaoJit {
    pub com_ir: bool,
    pub tempo_ns: u64,
    pub execucao_ns: Option<u64>,
    pub aot: Option<AotDoMesmoIr>,
}

/// The output and the record of the JIT profile when the emission of IR
/// failed: both profiles report the same native failure, and nothing ran.
pub fn jit_sem_ir(e: &str, com_aot: bool) -> (r: (Saida, ExecucaoJit))
    ensures
        r.0.stdout@ == Seq::<char>::empty(),
        r.0.stderr@ == stderr_nativo(sem_prefixo_da_emissao(e@)),
        r.0.codigo == 1,
        !r.1.com_ir,
        r.1.tempo_ns == 0,
        r.1.execucao_ns is None,
        com_aot ==> (r.1.aot matches Some(a) && a.saida.stdout@ == r.0.stdout@ && a.saida.stderr@
            == r.0.stderr@ && a.saida.codigo == r.0.codigo && a.ligacao_ns == 0 && a.execucao_ns == 0
            && !a.objeto_do_cache),
        !com_aot ==> r.1.aot is None,
{
    let saida = falha_de_emissao(e);
    let aot = if com_aot {
        let outra = falha_de_emissao(e);
        Some(AotDoMesmoIr { saida: outra, ligacao_ns: 0, execucao_ns: 0, objeto_do_cache: false })
    } else {
        None
    };
    (saida, ExecucaoJit { com_ir: false, tempo_ns: 0, execucao_ns: None, aot })
}

/// What `compile-js` leads to: its labelled failure when it exited with an
/// error, a failure of its own when it wrote no `main.mjs`, and otherwise
/// nothing (Node runs the module next).
pub fn apos_compile_js(compilado: Saida, escreveu_main: bool) -> (r: Option<Saida>)
    ensures
        compilado.codigo != 0 ==> (r matches Some(f) && f.stdout == compilado.stdout && f.codigo
            == compilado.codigo && f.stderr@ == stderr_rotulado("compile-js"@, compilado)),
        compilado.codigo == 0 && !escreveu_main ==> (r matches Some(f) && f.stdout@.len() == 0
            && f.codigo == -1 && f.stderr@ == "[compile-js] devolveu 0 mas não escreveu main.mjs"@),
        compilado.codigo == 0 && escreveu_main ==> r is None,
{
    if compilado.codigo != 0 {
        Some(rotular_falha("compile-js", compilado))
    } else if !escreveu_main {
        Some(Saida::erro("[compile-js] devolveu 0 mas não escreveu main.mjs".to_owned()))
    } else {
        None
    }
}

/// What the production compiler leads to: its labelled failure, a failure
/// of its own when it wrote no file, and otherwise nothing (the check of the
/// bundle comes next).
pub fn apos_jsprod(compilado: Saida, escreveu: bool) -> (r: Option<Saida>)
    ensures
        compilado.codigo != 0 ==> (r matches Some(f) && f.stdout == compilado.stdout && f.codigo
            == compilado.codigo && f.stderr@ == stderr_rotulado("jsprod"@, compilado)),
        compilado.codigo == 0 && !escreveu ==> (r matches Some(f) && f.stdout@.len() == 0 && f.codigo
            == -1 && f.stderr@ == "[jsprod] devolveu 0 mas não escreveu o arquivo"@),
        compilado.codigo == 0 && escreveu ==> r is None,
{
    if compilado.codigo != 0 {
        Some(rotular_falha("jsprod", compilado))
    } else if !escreveu {
        Some(Saida::erro("[jsprod] devolveu 0 mas não escreveu o arquivo".to_owned()))
    } else {
        None
    }
}

/// What `node --check` of the bundle leads to: a bundle that does not even
/// parse fails with its own message; otherwise nothing (Node runs it next).
pub fn apos_node_check(check: &Saida) -> (r: Option<Saida>)
    ensures
        check.codigo != 0 ==> (r matches Some(f) && f.stdout@.len() == 0 && f.codigo == -1
            && f.stderr@ == "[jsprod] node --check reprovou o bundle: "@ + primeira_nao_branca(
            check.stderr@,
        )),
        check.codigo == 0 ==> r is None,
{
    if check.codigo != 0 {
        let mut m = "[jsprod] node --check reprovou o bundle: ".to_owned();
        let p = check.primeira_linha_stderr();
        m.append(p.as_str());
        Some(Saida::erro(m))
    } else {
        None
    }
}

/// The text a failed `compile-native` process is reported by: its stderr,
/// or its stdout when the stderr holds nothing but blanks.
pub open spec fn texto_da_falha_nativa(s: Saida) -> Seq<char> {
    if primeira_nao_branca(s.stderr@).len() == 0 {
        s.stdout@
    } else {
        s.stderr@
    }
}

/// What `compile-native` leads to: the native failure when it exited with an
/// error, a failure of its own when it made no executable, and otherwise
/// nothing (the executable runs next).
pub fn apos_compile_nativo(compilado: Saida, gerou: bool) -> (r: Option<Saida>)
    ensures
        compilado.codigo != 0 ==> (r matches Some(f) && f.stdout@.len() == 0 && f.codigo == 1
            && f.stderr@ == stderr_nativo(texto_da_falha_nativa(compilado))),
        compilado.codigo == 0 && !gerou ==> (r matches Some(f) && f.stdout@.len() == 0 && f.codigo
            == -1 && f.stderr@ == "[compile-native] devolveu Ok mas não gerou executável"@),
        compilado.codigo == 0 && gerou ==> r is None,
{
    if compilado.codigo != 0 {
        let p = compilado.primeira_linha_stderr();
        if p.as_str().is_empty() {
            Some(falha_de_compilacao_nativa(compilado.stdout.as_str()))
        } else {
            Some(falha_de_compilacao_nativa(compilado.stderr.as_str()))
        }
    } else if !gerou {
        Some(Saida::erro("[compile-native] devolveu Ok mas não gerou executável".to_owned()))
    } else {
        None
    }
}

/// What the JS of `dartdevc` leads to: the `main.mjs` that runs its
/// exported library, or a failure when it has no `export { … }` line.
pub fn apos_compilar_ddc(modulo: &str, js: &str) -> (r: Result<String, Saida>)
    ensures
        match exportado_em(js@) {
            Some(e) => (r matches Ok(m) && m@ == main_mjs_de(modulo@, e)),
            None => (r matches Err(f) && f.stdout@.len() == 0 && f.codigo == -1 && f.stderr@
                == "dartdevc: linha `export { … }` não encontrada"@),
        },
{
    match nome_exportado(js) {
        Some(e) => Ok(main_mjs(modulo, e.as_str())),
        None => Err(Saida::erro("dartdevc: linha `export { … }` não encontrada".to_owned())),
    }
}

/// The failure when `main.mjs` could not be written.
pub fn main_mjs_nao_escrito() -> (r: Saida)
    ensures
        r.stdout@.len() == 0,
        r.codigo == -1,
        r.stderr@ == "não foi possível escrever main.mjs"@,
{
    Saida::erro("não foi possível escrever main.mjs".to_owned())
}

} // verus!
