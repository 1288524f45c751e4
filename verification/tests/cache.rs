use dartforge::cache::{entra_no_cache, grava_no_cache, ler_do_cache, texto_para_cache};
use dartforge::processo::Saida;

#[test]
fn cache_devolve_o_que_guardou() {
    let s = Saida { stdout: "olá\nmundo\n".into(), stderr: "erro é\n".into(), codigo: -7 };
    let t = texto_para_cache(&s);
    assert_eq!(t, "-7\n11\nolá\nmundo\nerro é\n");
    assert_eq!(ler_do_cache(&t), Some(s));
    let v = Saida { stdout: String::new(), stderr: String::new(), codigo: 0 };
    assert_eq!(texto_para_cache(&v), "0\n0\n");
    assert_eq!(ler_do_cache(&texto_para_cache(&v)), Some(v));
}

#[test]
fn cache_recusa_o_que_nao_le() {
    assert_eq!(ler_do_cache(""), None);
    assert_eq!(ler_do_cache("0"), None);
    assert_eq!(ler_do_cache("0\n1"), None);
    assert_eq!(ler_do_cache("x\n0\n"), None);
    assert_eq!(ler_do_cache("0\nx\n"), None);
    assert_eq!(ler_do_cache("0\n5\nabc"), None);
    assert_eq!(ler_do_cache("0\n1\né"), None);
    assert_eq!(ler_do_cache("99999999999\n0\n"), None);
    assert_eq!(
        ler_do_cache("+3\n+2\né!"),
        Some(Saida { stdout: "é".into(), stderr: "!".into(), codigo: 3 })
    );
}

#[test]
fn falhas_do_harness_fora_do_cache() {
    let mut s = Saida::erro("x".into());
    assert!(!entra_no_cache(&s));
    s.codigo = 0;
    assert!(entra_no_cache(&s));
    s.codigo = 255;
    assert!(entra_no_cache(&s));
}

#[test]
fn grava_so_com_o_cache_ligado() {
    let s = Saida { stdout: String::new(), stderr: String::new(), codigo: 0 };
    assert!(grava_no_cache(true, &s));
    assert!(!grava_no_cache(false, &s));
    assert!(!grava_no_cache(true, &Saida::erro("x".into())));
}
