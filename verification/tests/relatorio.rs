use dartforge::corpus::Programa;
use dartforge::processo::Saida;
use dartforge::relatorio::{
    chave_de_falha, comparar, primeira_diferenca, descrever, estabilizar_chave, foco, lado_a_lado, relatorio, truncar,
    Divergencia, Resultado,
};

fn s(stdout: &str, codigo: i32) -> Saida {
    Saida { stdout: stdout.into(), stderr: String::new(), codigo }
}

fn com_stderr(stderr: &str) -> Saida {
    Saida { stdout: String::new(), stderr: stderr.into(), codigo: 1 }
}

#[test]
fn compara() {
    assert_eq!(comparar(&s("a\nb\n", 0), &s("a\nb\n", 0)), None);
    assert_eq!(comparar(&s("a\nb\n", 0), &s("a\nc\n", 0)), Some(Divergencia::Linha(2)));
    assert_eq!(comparar(&s("a\nb\n", 0), &s("a\n", 0)), Some(Divergencia::Linha(2)));
    assert_eq!(comparar(&s("a\n", 0), &s("a\n", 255)), Some(Divergencia::Codigo));
    assert_eq!(comparar(&s("a\nb", 0), &s("a\nb\n", 0)), Some(Divergencia::Linha(2)));
}

#[test]
fn relatorio_agrupa() {
    let p = |nome: &str| Programa::teste(nome);
    let r = vec![
        Resultado { programa: p("a"), dart: s("1\n", 0), ddc: s("1\n", 0), forge: Some(s("1\n", 0)), nativo: false, producao: None },
        Resultado { programa: p("b"), dart: s("1\n2\n", 0), ddc: s("1\n2\n", 0), forge: Some(Saida { stdout: "1\n".into(), stderr: "erro: X\n".into(), codigo: 1 }), nativo: false, producao: None },
        Resultado { programa: p("c"), dart: s("1\n", 0), ddc: s("1\n", 0), forge: Some(Saida { stdout: String::new(), stderr: "erro: X\n".into(), codigo: 1 }), nativo: false, producao: None },
    ];
    let t = relatorio(&r);
    assert!(t.contains("ok     a"), "{t}");
    assert!(t.contains("FALHA  b  (stdout linha 2)"), "{t}");
    assert!(t.contains("DartForge: 1/3 ok"), "{t}");
    assert!(t.contains("   2  erro: X"), "{t}");
    assert!(t.contains("b, c"), "{t}");
}

#[test]
fn comparar_e_reflexivo() {
    let x = Saida { stdout: "a\nb".into(), stderr: "qualquer".into(), codigo: 3 };
    let y = Saida { stdout: "a\nb".into(), stderr: "outro".into(), codigo: 3 };
    assert_eq!(comparar(&x, &x), None);
    assert_eq!(comparar(&x, &y), None);
    assert_eq!(comparar(&s("", 0), &s("x", 0)), Some(Divergencia::Linha(1)));
}

#[test]
fn chave_nao_depende_do_numero_da_thread() {
    let a = estabilizar_chave("thread '<unnamed>' (11220) panicked at x.rs:1:2:");
    let b = estabilizar_chave("thread '<unnamed>' (7) panicked at x.rs:1:2:");
    assert_eq!(a, b);
    assert_eq!(a, "thread '<unnamed>' (N) panicked at x.rs:1:2:");
    assert_eq!(estabilizar_chave("() (a1) (12"), "() (a1) (12");
    assert_eq!(estabilizar_chave("erro: valor (42) inválido"), "erro: valor (42) inválido");
    assert_eq!(estabilizar_chave("thread 'main' (3x) e thread 'a'(4)"), "thread 'main' (3x) e thread 'a'(4)");
    assert_eq!(estabilizar_chave("thread 'main' (3)"), "thread 'main' (N)");
    assert_eq!(estabilizar_chave("thread 'main (3)"), "thread 'main (3)");
}

#[test]
fn chave_nao_depende_do_hash_do_runtime() {
    let a = estabilizar_chave("em runtime_cc150463840c488f.rs:3");
    let b = estabilizar_chave("em runtime_0.rs:3");
    assert_eq!(a, b);
    assert_eq!(a, "em runtime_<hash>.rs:3");
    assert_eq!(estabilizar_chave("runtime_x"), "runtime_x");
    assert_eq!(estabilizar_chave("ab"), "ab");
    let k = estabilizar_chave("thread '<unnamed>' (11220) panicked at runtime_ab12.rs:3");
    assert_eq!(k, "thread '<unnamed>' (N) panicked at runtime_<hash>.rs:3");
    assert_eq!(estabilizar_chave(&k), k);
}

#[test]
fn chave_de_falha_de_um_panico() {
    let p = com_stderr("\n  \nthread '<unnamed>' (11220) panicked at runtime_ab12.rs:346:14:\n  indice (3) fora   \nnote: x\n");
    assert_eq!(chave_de_falha(&p), "panic no runtime:   indice (3) fora");
    assert_eq!(chave_de_falha(&com_stderr("  \n\n")), "(stderr vazio)");
    assert_eq!(chave_de_falha(&com_stderr("thread 'main' panicked at a.rs:1:1:")), "thread 'main' panicked at a.rs:1:1:");
    assert_eq!(chave_de_falha(&com_stderr("erro: X  \nmais")), "erro: X");
    assert_eq!(chave_de_falha(&com_stderr("erro: valor (42) inválido\n")), "erro: valor (42) inválido");
    assert_eq!(chave_de_falha(&com_stderr("thread 'main' (99) morreu")), "thread 'main' (N) morreu");
}

#[test]
fn truncar_marca_o_corte() {
    let v: Vec<char> = "abcdef".chars().collect();
    assert_eq!(truncar(&v, 3), vec!['a', 'b', '…']);
    assert_eq!(truncar(&v, 6), v);
    assert_eq!(truncar(&v, 0), vec!['…']);
    assert_eq!(descrever(Divergencia::Codigo), "código de saída");
    assert_eq!(descrever(Divergencia::Linha(12)), "stdout linha 12");
    assert_eq!(foco(Divergencia::Codigo), 1);
    assert_eq!(foco(Divergencia::Linha(4)), 4);
}

#[test]
fn lado_a_lado_na_janela() {
    let t = lado_a_lado(&[("a", "x\ny\n"), ("b", "x\nz\n")], 2);
    let esperado = format!(
        "         {:<38} | {:<38}\n   {:>4}  {:<38} | {:<38}\n  >{:>4}  {:<38} | {:<38}\n",
        "a", "b", 1, "x", "x", 2, "y", "z"
    );
    assert_eq!(t, esperado);
    let longo: String = (1..=20).map(|i| format!("{i}\n")).collect();
    let t = lado_a_lado(&[("l", &longo)], 10);
    assert!(t.contains("  >  10  10"), "{t}");
    assert!(t.contains("\n      8  8 "), "{t}");
    assert!(!t.contains("\n      7  7 "), "{t}");
    assert!(t.contains("\n     16  16 "), "{t}");
    assert!(!t.contains("17"), "{t}");
    assert!(t.ends_with("         … (20 linhas ao todo)\n"), "{t}");
    let t = lado_a_lado(&[("a", "1\n2\n3\n"), ("b", "1\n")], 2);
    assert!(t.contains(&format!("{:<38} | {:<38}", "3", "∅")), "{t}");
}

#[test]
fn relatorio_ddc_e_referencia() {
    let mut p = Programa::teste("d");
    p.diverge_ddc = Some("int de 64 bits".into());
    let r = Resultado { programa: p.clone(), dart: s("1\n", 0), ddc: s("2\n", 0), forge: Some(s("2\n", 0)), nativo: false, producao: None };
    assert_eq!(r.referencia(), &r.ddc);
    assert_eq!(r.ddc_vs_dart(), Some(Divergencia::Linha(1)));
    assert_eq!(r.forge_vs_referencia(), None);
    assert!(r.ok());
    let q = Resultado { programa: Programa::teste("e"), dart: s("1\n", 0), ddc: s("2\n", 0), forge: None, nativo: false, producao: None };
    assert!(!q.ok());
    let t = relatorio(&[r, q]);
    assert!(t.contains("DDC≠VM e  (stdout linha 1)"), "{t}");
    assert!(t.contains("DartForge: 1/2 ok"), "{t}");
    assert!(t.contains("DDC×VM: 0/2 batem (sem contar 1 com divergência declarada)"), "{t}");
    let n = Resultado { programa: p, dart: s("1\n", 0), ddc: s("", 0), forge: Some(s("1\n", 0)), nativo: true, producao: None };
    assert_eq!(n.referencia(), &n.dart);
    let t = relatorio(&[n]);
    assert!(t.contains("DartForge Nativo: 1/1 ok"), "{t}");
    assert!(!t.contains("DDC×VM"), "{t}");
}

#[test]
fn primeira_diferenca_linha_a_linha() {
    assert_eq!(primeira_diferenca("a\nb\nc", "a\nx\nc"), (2, Some("b".to_string()), Some("x".to_string())));
    assert_eq!(primeira_diferenca("a\n", "a\nb\n"), (2, None, Some("b".to_string())));
    assert_eq!(primeira_diferenca("", ""), (1, None, None));
}

#[test]
fn grupos_maiores_primeiro() {
    let f = |nome: &str, erro: &str| Resultado {
        programa: Programa::teste(nome),
        dart: s("1\n", 0),
        ddc: s("1\n", 0),
        forge: Some(Saida { stdout: String::new(), stderr: erro.into(), codigo: 1 }),
        nativo: false,
        producao: None,
    };
    let t = relatorio(&[f("p1", "a: x\n"), f("p2", "b: y\n"), f("p3", "b: y\n"), f("p4", "c: z\n")]);
    let b = t.find("   2  b: y").expect("grupo b");
    let a = t.find("   1  a: x").expect("grupo a");
    let c = t.find("   1  c: z").expect("grupo c");
    assert!(b < a && a < c, "{t}");
    assert!(t.contains("        p2, p3\n"), "{t}");
    assert!(t.contains("Falhas por primeira linha do stderr do DartForge (prioridade = tamanho do grupo):"), "{t}");
}

#[test]
fn comparar_nao_depende_da_ordem() {
    let a = s("a\nb\nc\n", 0);
    let b = s("a\nx\n", 3);
    assert_eq!(comparar(&a, &b), comparar(&b, &a));
    assert_eq!(comparar(&a, &b), Some(Divergencia::Linha(2)));
    let e = Saida { stdout: "a".into(), stderr: "um".into(), codigo: 1 };
    let o = Saida { stdout: "a".into(), stderr: "outro".into(), codigo: 2 };
    assert_eq!(comparar(&e, &o), Some(Divergencia::Codigo));
    assert_eq!(estabilizar_chave("sem marcas: 42 e x"), "sem marcas: 42 e x");
}
