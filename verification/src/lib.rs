//! A differential harness for a Dart compiler: it runs each program of a corpus
//! on the reference VM, on the reference JavaScript compiler and on the
//! compiler under test, and compares what they print. The library holds the
//! harness's own logic: the corpus headers and their selection, the
//! comparison and the report, the texts handed to the tools, the cache format
//! and the table of diagnostic codes.

pub mod cache;
pub mod contrato;
pub mod corpus;
pub mod diagnosticos;
pub mod execucao;
pub mod oraculos;
pub mod processo;
pub mod relatorio;
pub mod tabela;
pub mod texto;
pub mod unicos;
