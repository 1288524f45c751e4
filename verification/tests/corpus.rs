use dartforge::corpus::{
    fragmento, ler_cabecalho, ler_diverge_ddc, ler_fragmento, marcador_versao, numero, organizar,
    pendentes_de, tema, Cabecalho, LanguageVersion, Programa,
};

#[test]
fn cabecalho_diverge() {
    assert_eq!(ler_diverge_ddc("// diverge-ddc: int de 64 bits\nvoid main() {}"), Some("int de 64 bits".into()));
    assert_eq!(ler_diverge_ddc("void main() {}"), None);
}

#[test]
fn cabecalhos_de_versao_negativo_e_experimentos() {
    let c = ler_cabecalho("// @dart=3.6\n// requer-dart: 3.13\n// erro-de-compilacao\n// experimentos: macros, augmentations\nvoid main() {}");
    assert_eq!(c.requer, Some(LanguageVersion::new(3, 13)));
    assert!(c.erro_compilacao);
    assert_eq!(c.experimentos, vec!["macros".to_string(), "augmentations".to_string()]);
    assert_eq!(c.diverge_ddc, None);
    assert_eq!(ler_cabecalho("void main() {}"), Cabecalho::default());
}

#[test]
fn temas() {
    assert_eq!(tema("01_print"), "Literais e strings");
    assert_eq!(tema("113_imports"), "Extensions, typedef e bibliotecas");
    assert_eq!(tema("abc"), "Outros");
}

#[test]
fn fragmentos_particionam_o_corpus() {
    let p = |nome: String| Programa::teste(&nome);
    let todos: Vec<Programa> = (0..23).map(|i| p(format!("{i:02}_x"))).collect();
    let n = 4;
    let mut vistos: Vec<String> = Vec::new();
    for k in 1..=n {
        let f = fragmento(todos.clone(), k, n);
        assert!(f.windows(2).all(|w| w[0].nome < w[1].nome));
        assert!(f.len() == 5 || f.len() == 6, "fragmento {k}: {}", f.len());
        vistos.extend(f.into_iter().map(|p| p.nome));
    }
    vistos.sort();
    let esperado: Vec<String> = todos.iter().map(|p| p.nome.clone()).collect();
    assert_eq!(vistos, esperado, "a união dos fragmentos é o corpus, sem repetição");
    assert_eq!(fragmento(todos.clone(), 1, 1).len(), 23);
    assert_eq!(fragmento(todos, 2, 4)[0].nome, "01_x");
}

#[test]
fn argumento_do_fragmento() {
    assert_eq!(ler_fragmento("3/8"), Ok((3, 8)));
    assert!(ler_fragmento("0/8").is_err());
    assert!(ler_fragmento("9/8").is_err());
    assert!(ler_fragmento("1/0").is_err());
    assert!(ler_fragmento("3").is_err());
    assert!(ler_fragmento("a/b").is_err());
}

#[test]
fn fragmento_lido_com_espacos_e_mensagem() {
    assert_eq!(ler_fragmento(" 2 / 4 "), Ok((2, 4)));
    assert_eq!(ler_fragmento("+1/+1"), Ok((1, 1)));
    assert_eq!(
        ler_fragmento("x"),
        Err("--fragmento espera K/N com 1 <= K <= N, recebeu `x`".to_string())
    );
}

#[test]
fn fragmento_nos_indices_do_resto() {
    let v: Vec<u32> = (0..10).collect();
    assert_eq!(fragmento(v.clone(), 1, 3), vec![0, 3, 6, 9]);
    assert_eq!(fragmento(v.clone(), 2, 3), vec![1, 4, 7]);
    assert_eq!(fragmento(v.clone(), 3, 3), vec![2, 5, 8]);
    assert_eq!(fragmento(Vec::<u32>::new(), 2, 2), Vec::<u32>::new());
}

#[test]
fn numero_do_prefixo() {
    assert_eq!(numero("113_imports"), 113);
    assert_eq!(numero("07x"), 7);
    assert_eq!(numero("abc"), u32::MAX);
    assert_eq!(numero("99999999999_x"), u32::MAX);
    assert_eq!(tema("140_a"), "Convertidos dos fixtures antigos");
    assert_eq!(tema("299_a"), "Convertidos dos fixtures antigos");
    assert_eq!(tema("300_a"), "Outros");
    assert_eq!(tema("85_a"), "async/await, Future e Stream");
}

#[test]
fn listagem_em_ordem_alfabetica() {
    let nomes = ["100_b", "10_a", "2_z", "abc", "10_0", "2_a"];
    let ps: Vec<Programa> = nomes.iter().map(|n| Programa::teste(n)).collect();
    let r = organizar(ps.clone(), &["10_a".to_string()], None);
    let ordem: Vec<&str> = r.iter().map(|p| p.nome.as_str()).collect();
    assert_eq!(ordem, vec!["100_b", "10_0", "10_a", "2_a", "2_z", "abc"]);
    let pendentes: Vec<bool> = r.iter().map(|p| p.pendente).collect();
    assert_eq!(pendentes, vec![false, false, true, false, false, false]);
    let f = organizar(ps, &[], Some("_a"));
    let ordem: Vec<&str> = f.iter().map(|p| p.nome.as_str()).collect();
    assert_eq!(ordem, vec!["10_a", "2_a"]);
}

#[test]
fn pendentes_sem_comentarios_nem_vazias() {
    assert_eq!(
        pendentes_de("# titulo\n01_a  # falta x\n\n   \n02_b\n#\n"),
        vec!["01_a".to_string(), "02_b".to_string()]
    );
    assert_eq!(pendentes_de(""), Vec::<String>::new());
}

#[test]
fn programa_le_o_cabecalho() {
    let p = Programa::novo(
        "01_a".into(),
        "c/01_a.dart".into(),
        vec!["c/01_a.dart".into()],
        "// @dart=2.19\n// diverge-ddc: motivo\nvoid main() {}",
    );
    assert_eq!(p.nome, "01_a");
    assert_eq!(p.diverge_ddc, Some("motivo".to_string()));
    assert_eq!(p.requer, LanguageVersion::new(3, 6));
    assert_eq!(p.marcador, Some(LanguageVersion::new(2, 19)));
    assert!(p.referencia_e_ddc());
    assert!(!Programa::teste("x").referencia_e_ddc());
    assert_eq!(marcador_versao("void main() {}"), None);
    assert_eq!(LanguageVersion::parse(" 3.13 "), Some(LanguageVersion::new(3, 13)));
    assert_eq!(LanguageVersion::parse("3"), None);
}

#[test]
fn cabecalho_so_nas_primeiras_linhas() {
    let mut fonte = String::new();
    for _ in 0..20 {
        fonte.push_str("// nada\n");
    }
    fonte.push_str("// erro-de-compilacao\n");
    assert!(!ler_cabecalho(&fonte).erro_compilacao);
    let c = ler_cabecalho("// diverge-ddc: a\n// diverge-ddc: b\n// experimentos: x\n// experimentos: y, ,z\n");
    assert_eq!(c.diverge_ddc, Some("a".to_string()));
    assert_eq!(c.experimentos, vec!["x".to_string(), "y".to_string(), "z".to_string()]);
}
