use dartforge::execucao::{numero_de_trabalhadores, plano, Opcoes, Plano};

#[test]
fn opcoes_padrao() {
    let op = Opcoes::default();
    assert_eq!(op, Opcoes { com_forge: true, threads: 0, nativo: false, com_producao: false });
    assert_eq!(plano(&op), Plano { ddc: true, forge_js: true, forge_nativo: false, producao: false });
}

#[test]
fn plano_do_modo_nativo() {
    let op = Opcoes { com_forge: true, threads: 2, nativo: true, com_producao: true };
    assert_eq!(plano(&op), Plano { ddc: false, forge_js: false, forge_nativo: true, producao: true });
    let op = Opcoes { com_forge: false, threads: 2, nativo: false, com_producao: false };
    assert_eq!(plano(&op), Plano { ddc: true, forge_js: false, forge_nativo: false, producao: false });
}

#[test]
fn trabalhadores() {
    assert_eq!(numero_de_trabalhadores(0, Some(8), 100), 8);
    assert_eq!(numero_de_trabalhadores(0, None, 100), 4);
    assert_eq!(numero_de_trabalhadores(16, Some(8), 3), 3);
    assert_eq!(numero_de_trabalhadores(2, Some(8), 0), 1);
    assert_eq!(numero_de_trabalhadores(0, Some(0), 5), 1);
}

use dartforge::corpus::Programa;
use dartforge::execucao::{com_trabalhadores_padrao, estado, todos_bem_sucedidos};
use dartforge::processo::Saida;
use dartforge::relatorio::Resultado;

fn s(stdout: &str, codigo: i32) -> Saida {
    Saida { stdout: stdout.into(), stderr: String::new(), codigo }
}

fn resultado(dart: Saida, ddc: Saida, forge: Option<Saida>, nativo: bool) -> Resultado {
    Resultado { programa: Programa::teste("p"), dart, ddc, forge, nativo, producao: None }
}

#[test]
fn dois_trabalhadores_nos_modos_pesados() {
    let op = Opcoes { com_forge: true, threads: 0, nativo: true, com_producao: false };
    assert_eq!(com_trabalhadores_padrao(op).threads, 2);
    let op = Opcoes { com_forge: true, threads: 0, nativo: false, com_producao: true };
    assert_eq!(com_trabalhadores_padrao(op).threads, 2);
    let op = Opcoes { com_forge: true, threads: 6, nativo: true, com_producao: false };
    assert_eq!(com_trabalhadores_padrao(op).threads, 6);
    assert_eq!(com_trabalhadores_padrao(Opcoes::default()), Opcoes::default());
}

#[test]
fn estado_de_cada_programa() {
    assert_eq!(estado(&resultado(s("1", 0), s("1", 0), Some(s("1", 0)), false)), "ok");
    assert_eq!(estado(&resultado(s("1", 0), s("1", 0), Some(s("2", 0)), false)), "FALHA");
    assert_eq!(estado(&resultado(s("1", 3), s("1", 0), None, false)), "DART!");
    assert_eq!(estado(&resultado(s("1", 0), s("", 0), None, true)), "DART");
    assert_eq!(estado(&resultado(s("1", 0), s("1", 0), None, false)), "ok");
    assert_eq!(estado(&resultado(s("1", 0), s("2", 0), None, false)), "DDC≠VM");
    let mut r = resultado(s("1", 0), s("1", 0), None, false);
    r.producao = Some(s("1", 0));
    assert_eq!(estado(&r), "PROD!");
}

#[test]
fn sucesso_da_execucao() {
    let bom = resultado(s("1", 0), s("1", 0), Some(s("1", 0)), false);
    let ruim = resultado(s("1", 0), s("1", 0), Some(s("2", 0)), false);
    let op = Opcoes::default();
    assert!(todos_bem_sucedidos(&[bom.clone()], &op));
    assert!(!todos_bem_sucedidos(&[bom.clone(), ruim.clone()], &op));
    assert!(todos_bem_sucedidos(&[], &op));
    let so_oraculos = Opcoes { com_forge: false, ..op };
    assert!(todos_bem_sucedidos(&[ruim.clone()], &so_oraculos));
    let diverge = resultado(s("1", 0), s("2", 0), None, false);
    assert!(!todos_bem_sucedidos(&[diverge], &so_oraculos));
    let nativo = Opcoes { com_forge: false, nativo: true, ..op };
    assert!(!todos_bem_sucedidos(&[resultado(s("1", 1), s("", 0), None, true)], &nativo));
}
