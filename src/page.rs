use vstd::prelude::*;

use crate::lookup::Model;

verus! {

/// What the component draws: a heading with the status, the input field
/// (which carries no state of its own), and a table of one header row and one
/// data row. Each text is shown as text, escaped by whatever draws it.
pub struct Page {
    pub heading: String,
    pub columns: Vec<String>,
    pub row: Vec<String>,
}

/// The texts of a list of strings.
pub open spec fn texts(v: Seq<String>) -> Seq<Seq<char>> {
    v.map_values(|s: String| s@)
}

/// The labels of the table's columns, in order.
pub open spec fn column_labels() -> Seq<Seq<char>> {
    seq![
        "cep"@,
        "logradouro"@,
        "complemento"@,
        "bairro"@,
        "localidade"@,
        "uf"@,
        "ibge"@,
        "gia"@,
        "ddd"@,
        "siafi"@,
    ]
}

/// The column labels, in order.
fn labels() -> (r: Vec<String>)
    ensures
        texts(r@) == column_labels(),
{
    let mut r: Vec<String> = Vec::new();
    r.push("cep".to_owned());
    r.push("logradouro".to_owned());
    r.push("complemento".to_owned());
    r.push("bairro".to_owned());
    r.push("localidade".to_owned());
    r.push("uf".to_owned());
    r.push("ibge".to_owned());
    r.push("gia".to_owned());
    r.push("ddd".to_owned());
    r.push("siafi".to_owned());
    assert(texts(r@) =~= column_labels());
    r
}

impl Model {
    /// The page for the current state: the status as heading, the fixed
    /// column labels, and the record's fields in the labels' order.
    pub fn render(&self) -> (p: Page)
        ensures
            p.heading@ == self@.status,
            texts(p.columns@) == column_labels(),
            texts(p.row@) == self@.record,
    {
        let c = &self.cep;
        let mut row: Vec<String> = Vec::new();
        row.push(c.cep.clone());
        row.push(c.logradouro.clone());
        row.push(c.complemento.clone());
        row.push(c.bairro.clone());
        row.push(c.localidade.clone());
        row.push(c.uf.clone());
        row.push(c.ibge.clone());
        row.push(c.gia.clone());
        row.push(c.ddd.clone());
        row.push(c.siafi.clone());
        assert(texts(row@) =~= self@.record);
        Page { heading: self.text.clone(), columns: labels(), row }
    }
}

} // verus!
