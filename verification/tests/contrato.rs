use dartforge::contrato::{cortar_preambulo, gerar_documento, EntradaContrato};
use dartforge::processo::Saida;

#[test]
fn corta() {
    let js = "var hello = Object.create(dart.library);\nexport { hello };\nimport { core, dart } from 'dart_sdk.js';\nvar $truncate = dartx.truncate;\ndart._checkModuleNullSafetyMode(true);\nconst CT = Object.create({\n  _: () => (C, CT)\n});\nhello.main = function main() {\n  core.print(\"a\");\n};\ndart_rti._Universe.addRules(dart.typeUniverse, JSON.parse('{}'));\ndart.trackLibraries(\"hello\", {\n  \"org-dartlang-app:/hello.dart\": hello\n}, {\n}, null);\n\n//# sourceMappingURL=hello.js.map\n";
    assert_eq!(cortar_preambulo(js), "var $truncate = dartx.truncate;\nhello.main = function main() {\n  core.print(\"a\");\n};\n");
}

#[test]
fn corta_ate_o_fim_e_termina_com_uma_quebra() {
    assert_eq!(cortar_preambulo(""), "\n");
    assert_eq!(cortar_preambulo("a\n\n\n  "), "a\n");
    assert_eq!(cortar_preambulo("x\ndart.trackLibraries(1, {\nnunca fecha"), "x\n");
    assert_eq!(cortar_preambulo("const CT = Object.create({\n  y\n});\n"), "const CT = Object.create({\n  y\n});\n");
}

#[test]
fn documento_por_tema() {
    let entradas = vec![
        EntradaContrato {
            nome: "01_print".into(),
            fontes: vec![("01_print.dart".into(), "void main() {}\n".into())],
            js: Ok("export { x };\nx.main = 1;\n".into()),
        },
        EntradaContrato {
            nome: "02_falha".into(),
            fontes: vec![("02_falha.dart".into(), "x".into())],
            js: Err(Saida { stdout: String::new(), stderr: "erro\n".into(), codigo: 1 }),
        },
    ];
    let d = gerar_documento(&entradas);
    assert!(d.contains("Literais e strings"), "{d}");
    assert!(d.contains("01_print"), "{d}");
    assert!(d.contains("x.main = 1;"), "{d}");
    assert!(!d.contains("export { x };"), "{d}");
    assert!(d.contains("void main() {}"), "{d}");
    assert!(d.contains("02_falha"), "{d}");
    assert_eq!(d.matches("Literais e strings").count(), 2, "{d}");
}
