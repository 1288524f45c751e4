use dartforge::diagnosticos::{formatar, Codigo, Diagnostic, Severidade, Span, TipoErro};

fn textos(v: &[&str]) -> Vec<String> {
    v.iter().map(|s| s.to_string()).collect()
}

#[test]
fn formatar_como_format_list() {
    let a = textos(&["String", "int", ""]);
    assert_eq!(
        formatar("The argument type '{0}' can't be assigned to the parameter type '{1}'. {2}", &a),
        "The argument type 'String' can't be assigned to the parameter type 'int'. "
    );
    assert_eq!(formatar("sem {0} args", &[]), "sem {0} args");
    assert_eq!(formatar("{x} {9}", &a), "{x} {9}");
}

#[test]
fn tabela_tem_as_contagens_do_analyzer_6_11_e_do_suplemento() {
    let conta = |prefixo: &str| Codigo::todos().into_iter().filter(|c| c.info().unico.starts_with(prefixo)).count();
    assert_eq!(conta("CompileTimeErrorCode."), 542 + 4);
    assert_eq!(conta("StaticWarningCode."), 7);
    assert_eq!(conta("WarningCode."), 144);
    assert_eq!(conta("ParserErrorCode."), 265 + 3);
    for c in Codigo::todos() {
        assert_eq!(Codigo::por_unico(c.info().unico), Some(c));
    }
}

#[test]
fn por_nome_prefere_o_proprio() {
    let c = Codigo::por_nome("abstract_field_initializer").unwrap();
    assert_eq!(c.info().unico, "CompileTimeErrorCode.ABSTRACT_FIELD_INITIALIZER");
    assert_eq!(c.info().severidade, Severidade::Error);
    let w = Codigo::por_nome("unused_local_variable").unwrap();
    assert_eq!(w.info().tipo, TipoErro::StaticWarning);
    assert_eq!(w.info().severidade, Severidade::Warning);
}

#[test]
fn formatar_indice_sem_argumento_fica() {
    let a = textos(&["x"]);
    assert_eq!(formatar("{0} e {1}", &a), "x e {1}");
    assert_eq!(formatar("{10}{0}", &a), "{10}x");
    assert_eq!(formatar("{0", &a), "{0");
    assert_eq!(formatar("{{0}}", &a), "{x}");
    assert_eq!(formatar("{1}", &a), "{1}");
}

#[test]
fn nomes_da_severidade_e_do_tipo_voltam() {
    for s in [Severidade::Error, Severidade::Warning, Severidade::Info] {
        assert_eq!(Severidade::por_nome(s.nome()), Some(s));
    }
    assert_eq!(Severidade::Error.nome(), "ERROR");
    assert_eq!(Severidade::por_nome("error"), None);
    assert_eq!(Severidade::default(), Severidade::Error);
    for t in [
        TipoErro::CompileTimeError,
        TipoErro::StaticWarning,
        TipoErro::SyntacticError,
    ] {
        assert_eq!(TipoErro::por_nome(t.nome()), Some(t));
        assert_eq!(t.e_erro_de_compilacao(), t.severidade() == Severidade::Error);
    }
    assert_eq!(TipoErro::por_nome("NADA"), None);
}

#[test]
fn codigos_por_nome_e_unico() {
    assert_eq!(Codigo::por_nome("nao_existe_este_codigo"), None);
    assert_eq!(Codigo::por_unico("CompileTimeErrorCode.NAO_EXISTE"), None);
    assert_eq!(Codigo::por_nome("ABSTRACT_FIELD_INITIALIZER"), None);
    let c = Codigo::por_nome("abstract_field_initializer").unwrap();
    assert_eq!(c.info().nome, "abstract_field_initializer");
    assert_eq!(Codigo::todos().len(), 1037);
}

#[test]
fn diagnostico_com_codigo_usa_o_molde() {
    let c = Codigo::por_unico("CompileTimeErrorCode.NON_BOOL_CONDITION").unwrap();
    let d = Diagnostic::com_codigo(c, Span { start: 1, end: 2 }, Vec::new());
    assert_eq!(d.code, Some(c));
    assert_eq!(d.message, c.info().mensagem);
    assert_eq!(d.severity, c.info().severidade);
    assert_eq!(d.span, Span { start: 1, end: 2 });
    let n = Diagnostic::new("x", Span { start: 0, end: 1 });
    assert_eq!(n.code, None);
    assert_eq!(n.severity, Severidade::Error);
    assert_eq!(n.correcao(), None);
    assert_eq!(n.texto(), "x at bytes 0..1");
    let t = d.texto();
    assert!(t.starts_with(c.info().nome), "{t}");
    assert!(t.ends_with(" at bytes 1..2"), "{t}");
}

#[test]
fn url_so_dos_documentados() {
    let mut com = 0;
    for c in Codigo::todos() {
        let i = c.info();
        match i.url() {
            Some(u) => {
                com += 1;
                assert!(i.documentado);
                assert_eq!(u, format!("https://dart.dev/diagnostics/{}", i.nome));
            }
            None => assert!(!i.documentado),
        }
    }
    assert!(com > 0);
}

#[test]
fn exemplos_da_documentacao() {
    let erro = Diagnostic::new("Nome não encontrado", Span { start: 2, end: 5 });
    assert_eq!(erro.span.start, 2);
    assert!(erro.code.is_none());
    let f = Codigo::por_unico("CompileTimeErrorCode.UNDEFINED_FUNCTION").unwrap();
    let d = Diagnostic::com_codigo(f, Span { start: 0, end: 1 }, vec!["h".to_string()]);
    assert_eq!(d.message, "The function 'h' isn't defined.");
    assert_eq!(d.code.unwrap().info().nome, "undefined_function");
    assert_eq!(d.args, vec!["h".to_string()]);
    let c = Codigo::por_unico("CompileTimeErrorCode.ABSTRACT_FIELD_INITIALIZER").unwrap();
    let d = Diagnostic::com_codigo(c, Span { start: 0, end: 1 }, vec![]);
    assert_eq!(d.correcao(), Some("Try removing the initializer or the 'abstract' keyword.".to_string()));
}
