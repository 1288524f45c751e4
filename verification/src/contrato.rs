//! The document of the DDC contract: each program of the corpus and the
//! JavaScript that `dartdevc` emits for it, without what every module repeats.
//! Compiling and reading the files is the application's part.
use vstd::prelude::*;

use crate::corpus::{numero_de, tema, tema_de};
use crate::processo::Saida;
use crate::texto::{
    anexar, aparar, aparar_fim, aparar_inicio, caracteres, comeca_com, comeca_str, contem,
    contem_str, dividir_linhas, iguais, linhas, sem_espaco_final, sem_espaco_inicial, sem_espacos,
    vistas, decimal_com_sinal, escrever_decimal_com_sinal,
};

verus! {

/// A line (already trimmed at the start) that every module repeats.
pub open spec fn descartavel(t: Seq<char>) -> bool {
    ||| (comeca_com(t, "var "@) && contem(t, "= Object.create(dart.library);"@))
    ||| comeca_com(t, "export {"@)
    ||| (comeca_com(t, "import {"@) && contem(t, "dart_sdk.js"@))
    ||| comeca_com(t, "dart._checkModuleNullSafetyMode("@)
    ||| comeca_com(t, "dart_rti._Universe.addRules("@)
    ||| comeca_com(t, "dart_rti._Universe.addErasedTypes("@)
    ||| comeca_com(t, "//# sourceMappingURL="@)
}

/// Lines `i..i+3` are the empty table of constants.
pub open spec fn ct_vazio(ls: Seq<Seq<char>>, i: int) -> bool {
    &&& comeca_com(aparar_inicio(ls[i]), "const CT = Object.create({"@)
    &&& i + 2 < ls.len()
    &&& aparar(ls[i + 1]) == "_: () => (C, CT)"@
    &&& aparar(ls[i + 2]) == "});"@
}

/// The line that closes `dart.trackLibraries(`: the first at or after `j`
/// that starts with `}, null);`, or `ls.len()`.
pub open spec fn fim_do_track(ls: Seq<Seq<char>>, j: int) -> int
    decreases ls.len() - j,
{
    if j >= ls.len() {
        ls.len() as int
    } else if comeca_com(aparar_inicio(ls[j]), "}, null);"@) {
        j
    } else {
        fim_do_track(ls, j + 1)
    }
}

pub proof fn lemma_fim_do_track(ls: Seq<Seq<char>>, j: int)
    requires
        0 <= j <= ls.len(),
    ensures
        j <= fim_do_track(ls, j) <= ls.len(),
    decreases ls.len() - j,
{
    if j < ls.len() && !comeca_com(aparar_inicio(ls[j]), "}, null);"@) {
        lemma_fim_do_track(ls, j + 1);
    }
}

/// The lines from `i` that stay, each followed by `'\n'`.
pub open spec fn cortar_desde(ls: Seq<Seq<char>>, i: int) -> Seq<char>
    decreases ls.len() + 1 - i,
{
    if i < 0 || i >= ls.len() {
        Seq::empty()
    } else {
        let t = aparar_inicio(ls[i]);
        if descartavel(t) {
            cortar_desde(ls, i + 1)
        } else if ct_vazio(ls, i) {
            cortar_desde(ls, i + 3)
        } else if comeca_com(t, "dart.trackLibraries("@) {
            proof {
                lemma_fim_do_track(ls, i);
            }
            cortar_desde(ls, fim_do_track(ls, i) + 1)
        } else {
            ls[i] + "\n"@ + cortar_desde(ls, i + 1)
        }
    }
}

/// The JS of `dartdevc` without its module preamble and epilogue.
pub open spec fn sem_preambulo(js: Seq<char>) -> Seq<char> {
    aparar_fim(cortar_desde(linhas(js), 0)) + "\n"@
}

/// Whether a line, trimmed at the start, is one every module repeats.
fn linha_descartavel(t: &[char]) -> (r: bool)
    ensures
        r == descartavel(t@),
{
    (comeca_str(t, "var ") && contem_str(t, "= Object.create(dart.library);")) || comeca_str(
        t,
        "export {",
    ) || (comeca_str(t, "import {") && contem_str(t, "dart_sdk.js")) || comeca_str(
        t,
        "dart._checkModuleNullSafetyMode(",
    ) || comeca_str(t, "dart_rti._Universe.addRules(") || comeca_str(
        t,
        "dart_rti._Universe.addErasedTypes(",
    ) || comeca_str(t, "//# sourceMappingURL=")
}

/// Removes from the JS of `dartdevc` what every module repeats: the module
/// header, the import of the SDK, `_checkModuleNullSafetyMode`, an empty
/// `CT` table, `addRules`, `trackLibraries` and the source map. The lines
/// `var $x = dartx.x;` stay: they tell which members of native types the
/// module uses.
pub fn cortar_preambulo(js: &str) -> (r: String)
    ensures
        r@ == sem_preambulo(js@),
{
    let cs = caracteres(js);
    let ls = dividir_linhas(cs.as_slice());
    let ghost lv = vistas(ls@);
    let mut out = String::new();
    let mut i: usize = 0;
    while i < ls.len()
        invariant
            i <= ls@.len(),
            lv == vistas(ls@),
            lv == linhas(js@),
            out@ + cortar_desde(lv, i as int) == cortar_desde(lv, 0),
        decreases ls.len() - i,
    {
        let ghost antes = out@;
        let l = ls[i].as_slice();
        assert(lv[i as int] == l@);
        let t = sem_espaco_inicial(l);
        if linha_descartavel(t.as_slice()) {
            i = i + 1;
            continue;
        }
        if comeca_str(t.as_slice(), "const CT = Object.create({") && ls.len() - i > 2 {
            let a = sem_espacos(ls[i + 1].as_slice());
            let b = sem_espacos(ls[i + 2].as_slice());
            assert(lv[i + 1] == ls@[i + 1]@);
            assert(lv[i + 2] == ls@[i + 2]@);
            if iguais(a.as_slice(), caracteres("_: () => (C, CT)").as_slice()) && iguais(
                b.as_slice(),
                caracteres("});").as_slice(),
            ) {
                i = i + 3;
                continue;
            }
        }
        assert(!ct_vazio(lv, i as int));
        if comeca_str(t.as_slice(), "dart.trackLibraries(") {
            assert(cortar_desde(lv, i as int) == cortar_desde(lv, fim_do_track(lv, i as int) + 1));
            let mut j: usize = i;
            while j < ls.len() && !comeca_str(
                sem_espaco_inicial(ls[j].as_slice()).as_slice(),
                "}, null);",
            )
                invariant
                    i <= j <= ls@.len(),
                    lv == vistas(ls@),
                    fim_do_track(lv, i as int) == fim_do_track(lv, j as int),
                decreases ls.len() - j,
            {
                assert(lv[j as int] == ls@[j as int]@);
                j = j + 1;
            }
            proof {
                if j < ls@.len() {
                    assert(lv[j as int] == ls@[j as int]@);
                }
                assert(fim_do_track(lv, j as int) == j);
            }
            if j == ls.len() {
                i = j;
            } else {
                i = j + 1;
            }
            continue;
        }
        anexar(&mut out, l);
        out.append("\n");
        assert(out@ =~= antes + l@ + "\n"@);
        i = i + 1;
    }
    let fim = sem_espaco_final(caracteres(out.as_str()).as_slice());
    let mut r = String::new();
    anexar(&mut r, fim.as_slice());
    r.append("\n");
    r
}

// ---------------------------------------------------------------- document

/// A program of the corpus for the document: its name, its files (path
/// relative to the program's directory, text) and what `dartdevc` gave.
pub struct EntradaContrato {
    pub nome: String,
    pub fontes: Vec<(String, String)>,
    pub js: Result<String, Saida>,
}

/// The fixed beginning of the document.
pub open spec fn abertura() -> Seq<char> {
    "# Contrato do DDC: o corpus compilado pelo `dartdevc`\n\n"@
        + "Gerado por `cargo run -p dartforge-diferencial -- contrato`; não editar à mão.\n"@
        + "Para cada programa de `corpus/js/`, o Dart e o JS (`--modules=es6`) que o\n`dartdevc` 3.6.2 emite, sem o que se repete em todo módulo:\n\n"@
        + "```js\nvar nome = Object.create(dart.library);      // uma por biblioteca do módulo\nexport { nome };                             // ou `export { nome as alias }`\nimport { dart_rti, core, dart, dartx } from 'dart_sdk.js';\ndart._checkModuleNullSafetyMode(true);\nconst CT = Object.create({ _: () => (C, CT) });   // tabela de constantes (fica quando não é vazia)\n… corpo …\ndart_rti._Universe.addRules(dart.typeUniverse, JSON.parse('{…}'));   // regras de subtipagem (cortadas)\ndart.trackLibraries(\"nome\", { \"org-dartlang-app:/nome.dart\": nome }, { /* parts */ }, null);\n```\n\n"@
        + "Um `main.mjs` que executa o módulo no Node:\n\n```js\nimport { nome as m } from './nome.js';\nm.main();   // main assíncrono: o Future roda no laço de eventos do Node\n```\n\n"@
}

/// The theme of entry `i`.
pub open spec fn tema_da_entrada(es: Seq<EntradaContrato>, i: int) -> Seq<char> {
    tema_de(numero_de(es[i].nome@))
}

/// Entry `i` opens a new theme.
pub open spec fn abre_tema(es: Seq<EntradaContrato>, i: int) -> bool {
    i == 0 || tema_da_entrada(es, i) != tema_da_entrada(es, i - 1)
}

/// The lines of the index for the entries.
pub open spec fn indice_de(es: Seq<EntradaContrato>) -> Seq<char>
    decreases es.len(),
{
    if es.len() == 0 {
        Seq::empty()
    } else {
        let i = es.len() - 1;
        indice_de(es.drop_last()) + (if abre_tema(es, i) {
            "- "@ + tema_da_entrada(es, i) + "\n"@
        } else {
            Seq::empty()
        }) + "  - "@ + es[i].nome@ + "\n"@
    }
}

/// The text of the files of a program.
pub open spec fn texto_das_fontes(fs: Seq<(String, String)>, varios: bool) -> Seq<char>
    decreases fs.len(),
{
    if fs.len() == 0 {
        Seq::empty()
    } else {
        texto_das_fontes(fs.drop_last(), varios) + (if varios {
            "`"@ + fs.last().0@ + "`:\n\n"@
        } else {
            Seq::empty()
        }) + "```dart\n"@ + aparar_fim(fs.last().1@) + "\n```\n\n"@
    }
}

/// The section of one program.
pub open spec fn secao(e: EntradaContrato) -> Seq<char> {
    "### "@ + e.nome@ + "\n\n"@ + texto_das_fontes(e.fontes@, e.fontes@.len() > 1) + match e.js {
        Ok(js) => "```js\n"@ + sem_preambulo(js@) + "```\n\n"@,
        Err(s) => "dartdevc falhou (código "@ + decimal_com_sinal(s.codigo as int) + "):\n\n```\n"@
            + aparar_fim(s.stderr@) + "\n```\n\n"@,
    }
}

/// The body: the sections, with a heading at each new theme.
pub open spec fn corpo_de(es: Seq<EntradaContrato>) -> Seq<char>
    decreases es.len(),
{
    if es.len() == 0 {
        Seq::empty()
    } else {
        let i = es.len() - 1;
        corpo_de(es.drop_last()) + (if abre_tema(es, i) {
            "\n## "@ + tema_da_entrada(es, i) + "\n\n"@
        } else {
            Seq::empty()
        }) + secao(es[i])
    }
}

/// The document of the contract.
pub open spec fn documento(es: Seq<EntradaContrato>) -> Seq<char> {
    abertura() + "## Índice\n\n"@ + indice_de(es) + corpo_de(es)
}

fn escrever_fontes(out: &mut String, fs: &Vec<(String, String)>)
    ensures
        final(out)@ == old(out)@ + texto_das_fontes(fs@, fs@.len() > 1),
{
    let ghost inicio = out@;
    let varios = fs.len() > 1;
    let mut k: usize = 0;
    assert(fs@.take(0) =~= Seq::<(String, String)>::empty());
    while k < fs.len()
        invariant
            k <= fs@.len(),
            varios == (fs@.len() > 1),
            out@ == inicio + texto_das_fontes(fs@.take(k as int), varios),
        decreases fs.len() - k,
    {
        let ghost antes = out@;
        let (rel, fonte) = &fs[k];
        if varios {
            out.append("`");
            out.append(rel.as_str());
            out.append("`:\n\n");
        }
        out.append("```dart\n");
        let t = sem_espaco_final(caracteres(fonte.as_str()).as_slice());
        anexar(out, t.as_slice());
        out.append("\n```\n\n");
        proof {
            assert(fs@.take(k + 1).drop_last() =~= fs@.take(k as int));
            assert(fs@.take(k + 1).last() == fs@[k as int]);
        }
        k = k + 1;
    }
    assert(fs@.take(fs@.len() as int) =~= fs@);
}

fn escrever_secao(out: &mut String, e: &EntradaContrato)
    ensures
        final(out)@ == old(out)@ + secao(*e),
{
    let ghost inicio = out@;
    out.append("### ");
    out.append(e.nome.as_str());
    out.append("\n\n");
    escrever_fontes(out, &e.fontes);
    let ghost meio = out@;
    match &e.js {
        Ok(js) => {
            out.append("```js\n");
            let c = cortar_preambulo(js.as_str());
            out.append(c.as_str());
            out.append("```\n\n");
        },
        Err(s) => {
            out.append("dartdevc falhou (código ");
            escrever_decimal_com_sinal(out, s.codigo as i64);
            out.append("):\n\n```\n");
            let t = sem_espaco_final(caracteres(s.stderr.as_str()).as_slice());
            anexar(out, t.as_slice());
            out.append("\n```\n\n");
        },
    }
}

/// Assembles the Markdown of the contract, grouped by theme.
pub fn gerar_documento(entradas: &[EntradaContrato]) -> (r: String)
    ensures
        r@ == documento(entradas@),
{
    let ghost es = entradas@;
    let mut indice = String::new();
    let mut corpo = String::new();
    let mut tema_atual: &str = "";
    let mut i: usize = 0;
    assert(es.take(0) =~= Seq::<EntradaContrato>::empty());
    while i < entradas.len()
        invariant
            i <= es.len(),
            es == entradas@,
            indice@ == indice_de(es.take(i as int)),
            corpo@ == corpo_de(es.take(i as int)),
            i > 0 ==> tema_atual@ == tema_da_entrada(es, i - 1),
        decreases entradas.len() - i,
    {
        let e = &entradas[i];
        let t = tema(e.nome.as_str());
        let ghost pref = es.take(i + 1);
        proof {
            assert(pref.drop_last() =~= es.take(i as int));
            assert(pref[i as int] == es[i as int]);
            assert(tema_da_entrada(pref, i as int) == tema_da_entrada(es, i as int));
            if i > 0 {
                assert(tema_da_entrada(pref, i - 1) == tema_da_entrada(es, i - 1));
            }
        }
        let novo = i == 0 || !iguais(caracteres(t).as_slice(), caracteres(tema_atual).as_slice());
        if novo {
            tema_atual = t;
            corpo.append("\n## ");
            corpo.append(t);
            corpo.append("\n\n");
            indice.append("- ");
            indice.append(t);
            indice.append("\n");
        }
        indice.append("  - ");
        indice.append(e.nome.as_str());
        indice.append("\n");
        escrever_secao(&mut corpo, e);
        i = i + 1;
    }
    assert(es.take(es.len() as int) =~= es);
    let mut doc = String::new();
    doc.append("# Contrato do DDC: o corpus compilado pelo `dartdevc`\n\n");
    doc.append("Gerado por `cargo run -p dartforge-diferencial -- contrato`; não editar à mão.\n");
    doc.append(
        "Para cada programa de `corpus/js/`, o Dart e o JS (`--modules=es6`) que o\n`dartdevc` 3.6.2 emite, sem o que se repete em todo módulo:\n\n",
    );
    doc.append(
        "```js\nvar nome = Object.create(dart.library);      // uma por biblioteca do módulo\nexport { nome };                             // ou `export { nome as alias }`\nimport { dart_rti, core, dart, dartx } from 'dart_sdk.js';\ndart._checkModuleNullSafetyMode(true);\nconst CT = Object.create({ _: () => (C, CT) });   // tabela de constantes (fica quando não é vazia)\n… corpo …\ndart_rti._Universe.addRules(dart.typeUniverse, JSON.parse('{…}'));   // regras de subtipagem (cortadas)\ndart.trackLibraries(\"nome\", { \"org-dartlang-app:/nome.dart\": nome }, { /* parts */ }, null);\n```\n\n",
    );
    doc.append(
        "Um `main.mjs` que executa o módulo no Node:\n\n```js\nimport { nome as m } from './nome.js';\nm.main();   // main assíncrono: o Future roda no laço de eventos do Node\n```\n\n",
    );
    doc.append("## Índice\n\n");
    doc.append(indice.as_str());
    doc.append(corpo.as_str());
    doc
}

} // verus!
