use vstd::prelude::*;

verus! {

/// An address as the lookup service reports it: one text field per column
/// of the result table.
#[derive(Clone, Debug, PartialEq, Eq)]
pub struct Cep {
    pub cep: String,
    pub logradouro: String,
    pub complemento: String,
    pub bairro: String,
    pub localidade: String,
    pub uf: String,
    pub ibge: String,
    pub gia: String,
    pub ddd: String,
    pub siafi: String,
}

impl View for Cep {
    type V = Seq<Seq<char>>;

    /// The fields in the order of the table's columns.
    open spec fn view(&self) -> Seq<Seq<char>> {
        seq![
            self.cep@,
            self.logradouro@,
            self.complemento@,
            self.bairro@,
            self.localidade@,
            self.uf@,
            self.ibge@,
            self.gia@,
            self.ddd@,
            self.siafi@,
        ]
    }
}

/// The record shown before any lookup has succeeded: every field empty.
pub open spec fn empty_record() -> Seq<Seq<char>> {
    Seq::new(10, |_i: int| Seq::<char>::empty())
}

impl Cep {
    /// A record with every field empty.
    pub fn new() -> (r: Cep)
        ensures
            r@ == empty_record(),
    {
        let r = Cep {
            cep: String::new(),
            logradouro: String::new(),
            complemento: String::new(),
            bairro: String::new(),
            localidade: String::new(),
            uf: String::new(),
            ibge: String::new(),
            gia: String::new(),
            ddd: String::new(),
            siafi: String::new(),
        };
        assert(r@ =~= empty_record());
        r
    }
}

} // verus!
