use dartforge::processo::{
    concluir_execucao, encerrar_captura, guardar_pedaco, Saida, Termino, CODIGO_TEMPO_ESGOTADO,
    TETO_CAPTURA,
};

#[test]
fn erro_do_harness() {
    let s = Saida::erro("falhou".to_string());
    assert_eq!(s, Saida { stdout: String::new(), stderr: "falhou".into(), codigo: -1 });
    let t = Saida { stdout: String::new(), stderr: "\n   \n  a b  \nc".into(), codigo: 0 };
    assert_eq!(t.primeira_linha_stderr(), "  a b");
    assert_eq!(Saida::erro(String::new()).primeira_linha_stderr(), "");
}

#[test]
fn captura_limitada() {
    let mut acc: Vec<u8> = vec![1; TETO_CAPTURA - 3];
    let mut desc: usize = 0;
    guardar_pedaco(&mut acc, &mut desc, &[7, 8, 9, 10, 11]);
    assert_eq!(acc.len(), TETO_CAPTURA);
    assert_eq!(&acc[TETO_CAPTURA - 3..], &[7, 8, 9]);
    assert_eq!(desc, 2);
    guardar_pedaco(&mut acc, &mut desc, &[1, 2]);
    assert_eq!(acc.len(), TETO_CAPTURA);
    assert_eq!(desc, 4);
    let fim = encerrar_captura(vec![b'x'], 4);
    assert_eq!(String::from_utf8(fim).unwrap(), "x\n[saída truncada pelo harness: mais 4 bytes]\n");
    assert_eq!(encerrar_captura(vec![b'y'], 0), vec![b'y']);
    let mut v: Vec<u8> = Vec::new();
    let mut d: usize = 0;
    guardar_pedaco(&mut v, &mut d, b"abc");
    assert_eq!(v, b"abc".to_vec());
    assert_eq!(d, 0);
}

#[test]
fn termino_da_execucao() {
    let args = vec!["a".chars().collect::<Vec<char>>(), "b c".chars().collect()];
    let s = concluir_execucao("o".into(), "e".into(), Termino::TempoEsgotado, 120, "node", &args);
    assert_eq!(s.codigo, CODIGO_TEMPO_ESGOTADO);
    assert_eq!(s.stdout, "o");
    assert_eq!(s.stderr, "tempo esgotado (120 s): node a b c\ne");
    let s = concluir_execucao("o".into(), "e".into(), Termino::Saiu(Some(3)), 1, "x", &[]);
    assert_eq!(s, Saida { stdout: "o".into(), stderr: "e".into(), codigo: 3 });
    let s = concluir_execucao("".into(), "".into(), Termino::Saiu(None), 1, "x", &[]);
    assert_eq!(s.codigo, -3);
    let s = concluir_execucao("".into(), "".into(), Termino::Falhou, 1, "x", &[]);
    assert_eq!(s.codigo, -3);
}

#[test]
fn captura_guarda_o_comeco_do_fluxo() {
    let pedacos: Vec<Vec<u8>> = vec![vec![1; TETO_CAPTURA - 10], vec![2; 6], vec![3; 8], vec![4; 5]];
    let mut acc: Vec<u8> = Vec::new();
    let mut desc: usize = 0;
    for p in &pedacos {
        guardar_pedaco(&mut acc, &mut desc, p);
    }
    let juntos: Vec<u8> = pedacos.concat();
    assert_eq!(acc, juntos[..TETO_CAPTURA].to_vec());
    assert_eq!(desc, juntos.len() - TETO_CAPTURA);
    let fim = encerrar_captura(acc, desc);
    assert!(fim.ends_with("\n[saída truncada pelo harness: mais 9 bytes]\n".as_bytes()));
}
