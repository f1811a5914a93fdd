use fedora::{Json, OpenIDParameters, OpenIDResponse};

const FIELDS: [&str; 17] = [
    "openid.assoc_handle",
    "openid.cla.signed_cla",
    "openid.claimed_id",
    "openid.identity",
    "openid.lp.is_member",
    "openid.mode",
    "openid.ns",
    "openid.ns.cla",
    "openid.ns.lp",
    "openid.ns.sreg",
    "openid.op_endpoint",
    "openid.response_nonce",
    "openid.return_to",
    "openid.sig",
    "openid.signed",
    "openid.sreg.email",
    "openid.sreg.nickname",
];

fn answer(extra: &str) -> String {
    let mut members: Vec<String> =
        FIELDS.iter().map(|name| format!("\"{}\": \"value of {}\"", name, name)).collect();
    if !extra.is_empty() {
        members.push(extra.to_string());
    }
    format!("{{{}}}", members.join(", "))
}

fn envelope(success: &str, extra: &str) -> String {
    format!("{{\"success\": {}, \"response\": {}}}", success, answer(extra))
}

#[test]
fn parameters_are_read_by_their_dotted_names() {
    let params = OpenIDParameters::from_json(Json::parse(&answer("")).unwrap()).unwrap();
    assert_eq!(params.assoc_handle, "value of openid.assoc_handle");
    assert_eq!(params.cla_signed_cla, "value of openid.cla.signed_cla");
    assert_eq!(params.claimed_id, "value of openid.claimed_id");
    assert_eq!(params.identity, "value of openid.identity");
    assert_eq!(params.lp_is_member, "value of openid.lp.is_member");
    assert_eq!(params.mode, "value of openid.mode");
    assert_eq!(params.ns, "value of openid.ns");
    assert_eq!(params.ns_cla, "value of openid.ns.cla");
    assert_eq!(params.ns_lp, "value of openid.ns.lp");
    assert_eq!(params.ns_sreg, "value of openid.ns.sreg");
    assert_eq!(params.op_endpoint, "value of openid.op_endpoint");
    assert_eq!(params.response_nonce, "value of openid.response_nonce");
    assert_eq!(params.return_to, "value of openid.return_to");
    assert_eq!(params.sig, "value of openid.sig");
    assert_eq!(params.signed, "value of openid.signed");
    assert_eq!(params.sreg_email, "value of openid.sreg.email");
    assert_eq!(params.sreg_nickname, "value of openid.sreg.nickname");
    assert!(params.extra.is_empty());
}

#[test]
fn parameters_keep_what_is_not_known() {
    let doc = Json::parse(&answer("\"openid.sreg.fullname\": \"Jane Doe\", \"count\": 3")).unwrap();
    let params = OpenIDParameters::from_json(doc).unwrap();
    let mut extra = params.extra;
    extra.sort_by(|a, b| a.0.cmp(&b.0));
    assert_eq!(
        extra,
        vec![
            ("count".to_string(), Json::Number("3".to_string())),
            ("openid.sreg.fullname".to_string(), Json::Text("Jane Doe".to_string())),
        ]
    );
}

#[test]
fn parameters_need_every_field() {
    for missing in FIELDS {
        let members: Vec<String> = FIELDS
            .iter()
            .filter(|name| **name != missing)
            .map(|name| format!("\"{}\": \"x\"", name))
            .collect();
        let doc = Json::parse(&format!("{{{}}}", members.join(", "))).unwrap();
        assert!(OpenIDParameters::from_json(doc).is_none(), "{}", missing);
    }
}

#[test]
fn parameters_need_texts() {
    let text = answer("").replace("\"value of openid.sig\"", "17");
    assert!(OpenIDParameters::from_json(Json::parse(&text).unwrap()).is_none());
    assert!(OpenIDParameters::from_json(Json::Null).is_none());
    assert!(OpenIDParameters::from_json(Json::List(vec![])).is_none());
}

#[test]
fn parameters_form_fields() {
    let doc = Json::parse(&answer("\"zz\": true, \"zy\": 4, \"zx\": \"text\"")).unwrap();
    let params = OpenIDParameters::from_json(doc).unwrap();
    let form = params.form_fields().unwrap();
    assert_eq!(form.len(), 20);
    for (i, name) in FIELDS.iter().enumerate() {
        assert_eq!(form[i], (name.to_string(), format!("value of {}", name)));
    }
    let mut extra = form[17..].to_vec();
    extra.sort();
    assert_eq!(
        extra,
        vec![
            ("zx".to_string(), "text".to_string()),
            ("zy".to_string(), "4".to_string()),
            ("zz".to_string(), "true".to_string()),
        ]
    );
}

#[test]
fn parameters_form_fields_of_false() {
    let doc = Json::parse(&answer("\"flag\": false")).unwrap();
    let form = OpenIDParameters::from_json(doc).unwrap().form_fields().unwrap();
    assert_eq!(form[17], ("flag".to_string(), "false".to_string()));
}

#[test]
fn parameters_without_a_form() {
    for extra in ["\"x\": null", "\"x\": [1]", "\"x\": {\"y\": 1}"] {
        let doc = Json::parse(&answer(extra)).unwrap();
        let params = OpenIDParameters::from_json(doc).unwrap();
        assert_eq!(params.form_fields(), None, "{}", extra);
    }
}

#[test]
fn envelope_is_read() {
    let read = OpenIDResponse::from_json_text(&envelope("true", "")).unwrap();
    assert!(read.success);
    assert_eq!(read.response.return_to, "value of openid.return_to");
    let read = OpenIDResponse::from_json_text(&envelope("false", "")).unwrap();
    assert!(!read.success);
}

#[test]
fn envelope_ignores_other_members() {
    let text = format!("{{\"more\": 1, \"success\": true, \"response\": {}}}", answer(""));
    assert!(OpenIDResponse::from_json_text(&text).is_some());
}

#[test]
fn envelope_is_not_read() {
    assert!(OpenIDResponse::from_json_text("not json").is_none());
    assert!(OpenIDResponse::from_json_text("{}").is_none());
    assert!(OpenIDResponse::from_json_text("[]").is_none());
    assert!(OpenIDResponse::from_json_text(&envelope("\"true\"", "")).is_none());
    assert!(OpenIDResponse::from_json_text(&envelope("1", "")).is_none());
    assert!(OpenIDResponse::from_json_text(&format!("{{\"response\": {}}}", answer(""))).is_none());
    assert!(OpenIDResponse::from_json_text("{\"success\": true}").is_none());
    assert!(OpenIDResponse::from_json_text("{\"success\": true, \"response\": {}}").is_none());
    assert!(OpenIDResponse::from_json_text("{\"success\": true, \"response\": \"x\"}").is_none());
}

#[test]
fn envelope_from_json() {
    let doc = Json::parse(&envelope("true", "")).unwrap();
    assert!(OpenIDResponse::from_json(doc).is_some());
    assert!(OpenIDResponse::from_json(Json::Bool(true)).is_none());
}
