use dartforge::oraculos::{
    apos_compilar_ddc, main_mjs_nao_escrito, resumo_do_ir,
    apos_compile_js, apos_compile_nativo, apos_jsprod, apos_node_check, falha_de_emissao, jit_sem_ir,
    apontar_sdk, conteudo, chave_cache, falha_de_compilacao_nativa, hash_fnv, main_mjs, nome_exportado,
    normalizar_falha_do_jit, rotular_falha, sem_prefixo_verbatim, separar_tempos_do_executor,
    url_arquivo, CODIGO_FALHA_DO_JIT,
};
use dartforge::processo::Saida;

#[test]
fn exportado() {
    assert_eq!(nome_exportado("var a = 1;\nexport { $01_print };\n").as_deref(), Some("$01_print"));
    assert_eq!(nome_exportado("export { hello as target__hello };").as_deref(), Some("target__hello"));
    assert_eq!(nome_exportado("export { main, util };").as_deref(), Some("main"));
    assert_eq!(nome_exportado("nada"), None);
}

#[test]
fn url() {
    assert_eq!(url_arquivo(r"D:\x\dart_sdk.js"), "file:///D:/x/dart_sdk.js");
    assert_eq!(url_arquivo("/tmp/dart_sdk.js"), "file:///tmp/dart_sdk.js");
}

#[test]
fn sem_verbatim_do_windows() {
    assert_eq!(sem_prefixo_verbatim(r"\\?\D:\x"), r"D:\x");
    assert_eq!(sem_prefixo_verbatim(r"D:\x"), r"D:\x");
    assert_eq!(sem_prefixo_verbatim("/tmp"), "/tmp");
}

#[test]
fn fnv_e_chave_do_cache() {
    assert_eq!(hash_fnv(b""), 0xcbf29ce484222325);
    assert_eq!(hash_fnv(b"a"), 0xaf63dc4c8601ec8c);
    assert_eq!(hash_fnv(b"foobar"), 0x85944171f73967e8);
    assert_eq!(chave_cache(b""), "cbf29ce484222325");
    assert_eq!(chave_cache(b"a"), "af63dc4c8601ec8c");
    assert_eq!(chave_cache(b"foobar").len(), 16);
}

#[test]
fn sdk_apontado_para_a_copia() {
    let js = "import { core } from 'dart_sdk.js';\nimport { x } from 'dart_sdk.js';\nfrom 'outro.js'";
    assert_eq!(
        apontar_sdk(js, "file:///r/dart_sdk.js"),
        "import { core } from 'file:///r/dart_sdk.js';\nimport { x } from 'file:///r/dart_sdk.js';\nfrom 'outro.js'"
    );
    assert_eq!(apontar_sdk("", "u"), "");
}

#[test]
fn main_mjs_importa_o_exportado() {
    assert_eq!(
        main_mjs("01_print", "$01_print"),
        "process.on('uncaughtException', (e) => {\n  console.error('Unhandled exception:\\n' + e);\n  process.exit(255);\n});\nimport { $01_print as m } from './01_print.js';\nm.main();\n"
    );
}

#[test]
fn falhas_rotuladas() {
    let s = Saida { stdout: "saida\nmais".into(), stderr: "\n  erro: a  \nb\n".into(), codigo: 2 };
    let r = rotular_falha("compile-js", s.clone());
    assert_eq!(r.stderr, "[compile-js código 2]   erro: a\n\n  erro: a  \nb\n");
    assert_eq!(r.stdout, s.stdout);
    assert_eq!(r.codigo, 2);
    let t = Saida { stdout: "primeira\nsegunda".into(), stderr: String::new(), codigo: -1 };
    assert_eq!(rotular_falha("jsprod", t).stderr, "[jsprod código -1] primeira\n");
    let n = falha_de_compilacao_nativa("linha 1\nlinha 2");
    assert_eq!(n, Saida { stdout: String::new(), stderr: "[compile-native] linha 1\nlinha 1\nlinha 2".into(), codigo: 1 });
}

#[test]
fn falha_do_jit_vira_falha_de_compilacao() {
    let j = Saida { stdout: String::new(), stderr: "verificador: x\n".into(), codigo: CODIGO_FALHA_DO_JIT };
    let r = normalizar_falha_do_jit(j);
    assert_eq!(r, Saida { stdout: String::new(), stderr: "[compile-native] verificador: x\nverificador: x\n".into(), codigo: 1 });
    let k = Saida { stdout: "1\n".into(), stderr: "e".into(), codigo: CODIGO_FALHA_DO_JIT };
    assert_eq!(normalizar_falha_do_jit(k.clone()), k);
    let m = Saida { stdout: String::new(), stderr: "e".into(), codigo: 3 };
    assert_eq!(normalizar_falha_do_jit(m.clone()), m);
}

#[test]
fn tempos_saem_do_stderr() {
    let mut s = Saida {
        stdout: "1\n".into(),
        stderr: "aviso\n{\"llvm\":1,\"execute_ns\":12345,\"x\":2}\nfim\n".into(),
        codigo: 0,
    };
    assert_eq!(separar_tempos_do_executor(&mut s), Some(12345));
    assert_eq!(s.stderr, "aviso\nfim\n");
    assert_eq!(s.stdout, "1\n");
    let mut t = Saida { stdout: String::new(), stderr: "{\"llvm\":1}".into(), codigo: 5 };
    assert_eq!(separar_tempos_do_executor(&mut t), None);
    assert_eq!(t.stderr, "");
    assert_eq!(t.codigo, 5);
    let mut u = Saida { stdout: String::new(), stderr: "nada aqui\n".into(), codigo: 0 };
    assert_eq!(separar_tempos_do_executor(&mut u), None);
    assert_eq!(u.stderr, "nada aqui\n");
}

#[test]
fn conteudo_de_cada_arquivo() {
    let c = conteudo(&[("a.dart".to_string(), b"x".to_vec()), ("é".to_string(), vec![])]);
    assert_eq!(c, b"a.dart\0x\0\xc3\xa9\0\0".to_vec());
    assert_eq!(conteudo(&[]), Vec::<u8>::new());
    assert_eq!(chave_cache(&c), format!("{:016x}", hash_fnv(&c)));
}

#[test]
fn falha_de_emissao_sem_prefixo() {
    let f = falha_de_emissao("[emitir-ir] tipo x\nmais");
    assert_eq!(f, Saida { stdout: String::new(), stderr: "[compile-native] tipo x\ntipo x\nmais".into(), codigo: 1 });
    let g = falha_de_emissao("sem prefixo");
    assert_eq!(g.stderr, "[compile-native] sem prefixo\nsem prefixo");
    let (s, r) = jit_sem_ir("[emitir-ir] e", true);
    assert_eq!(s.stderr, "[compile-native] e\ne");
    assert!(!r.com_ir);
    assert_eq!(r.tempo_ns, 0);
    assert_eq!(r.execucao_ns, None);
    let a = r.aot.unwrap();
    assert_eq!(a.saida, s);
    assert_eq!((a.ligacao_ns, a.execucao_ns, a.objeto_do_cache), (0, 0, false));
    assert_eq!(jit_sem_ir("e", false).1.aot, None);
}

#[test]
fn passos_dos_executores() {
    let ok = Saida { stdout: "x".into(), stderr: String::new(), codigo: 0 };
    let erro = Saida { stdout: "x".into(), stderr: "falhou\n".into(), codigo: 2 };
    assert_eq!(apos_compile_js(ok.clone(), true), None);
    assert_eq!(
        apos_compile_js(ok.clone(), false),
        Some(Saida::erro("[compile-js] devolveu 0 mas não escreveu main.mjs".into()))
    );
    assert_eq!(apos_compile_js(erro.clone(), true).unwrap().stderr, "[compile-js código 2] falhou\nfalhou\n");
    assert_eq!(apos_jsprod(ok.clone(), true), None);
    assert_eq!(
        apos_jsprod(ok.clone(), false),
        Some(Saida::erro("[jsprod] devolveu 0 mas não escreveu o arquivo".into()))
    );
    assert_eq!(apos_jsprod(erro.clone(), false).unwrap().stderr, "[jsprod código 2] falhou\nfalhou\n");
    assert_eq!(apos_node_check(&ok), None);
    assert_eq!(
        apos_node_check(&erro),
        Some(Saida::erro("[jsprod] node --check reprovou o bundle: falhou".into()))
    );
    assert_eq!(apos_compile_nativo(ok.clone(), true), None);
    assert_eq!(
        apos_compile_nativo(ok.clone(), false),
        Some(Saida::erro("[compile-native] devolveu Ok mas não gerou executável".into()))
    );
    assert_eq!(apos_compile_nativo(erro, true).unwrap().stderr, "[compile-native] falhou\nfalhou\n");
    let so_stdout = Saida { stdout: "no stdout".into(), stderr: "  \n".into(), codigo: 1 };
    assert_eq!(apos_compile_nativo(so_stdout, true).unwrap().stderr, "[compile-native] no stdout\nno stdout");
}

#[test]
fn resumo_do_ir_por_nome_e_bytes() {
    let r = resumo_do_ir(&[("a.ll".to_string(), b"x".to_vec()), ("b.ll".to_string(), b"yz".to_vec())]);
    assert_eq!(r, hash_fnv(b"a.llxb.llyz"));
    assert_eq!(resumo_do_ir(&[]), hash_fnv(b""));
    let trocado = resumo_do_ir(&[("b.ll".to_string(), b"yz".to_vec()), ("a.ll".to_string(), b"x".to_vec())]);
    assert_ne!(r, trocado);
}

#[test]
fn passo_do_ddc() {
    assert_eq!(
        apos_compilar_ddc("01_print", "var a;\nexport { $01_print };\n"),
        Ok(main_mjs("01_print", "$01_print"))
    );
    assert_eq!(
        apos_compilar_ddc("x", "sem export"),
        Err(Saida::erro("dartdevc: linha `export { … }` não encontrada".into()))
    );
    assert_eq!(main_mjs_nao_escrito(), Saida::erro("não foi possível escrever main.mjs".into()));
}
