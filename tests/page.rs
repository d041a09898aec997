use cep_lookup::{classify_response, Cep, Model};

#[test]
fn initial_page_is_blank() {
    let p = Model::create().render();
    assert_eq!(p.heading, "");
    assert_eq!(p.row, vec![String::new(); 10]);
}

#[test]
fn page_has_fixed_column_labels() {
    let p = Model::create().render();
    assert_eq!(
        p.columns,
        vec![
            "cep", "logradouro", "complemento", "bairro", "localidade", "uf", "ibge", "gia",
            "ddd", "siafi"
        ]
    );
}

#[test]
fn page_shows_status_and_record_in_column_order() {
    let mut m = Model::create();
    let c = Cep {
        cep: "01001-000".to_string(),
        logradouro: "Praça da Sé".to_string(),
        complemento: "lado ímpar".to_string(),
        bairro: "Sé".to_string(),
        localidade: "São Paulo".to_string(),
        uf: "SP".to_string(),
        ibge: "3550308".to_string(),
        gia: "1004".to_string(),
        ddd: "11".to_string(),
        siafi: "7107".to_string(),
    };
    m.update(classify_response(200, Some(c)));
    let p = m.render();
    assert_eq!(p.heading, "Valid cep");
    assert_eq!(
        p.row,
        vec![
            "01001-000", "Praça da Sé", "lado ímpar", "Sé", "São Paulo", "SP", "3550308", "1004",
            "11", "7107"
        ]
    );
}

#[test]
fn page_after_failure_shows_invalid_status() {
    let mut m = Model::create();
    m.update(classify_response(404, None));
    let p = m.render();
    assert_eq!(p.heading, "Invalid cep");
    assert_eq!(p.row, vec![String::new(); 10]);
}
