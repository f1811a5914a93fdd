//! What an OpenID provider answers to a login.

use vstd::prelude::*;

use crate::accumulator::pairs_view;
use crate::json::{
    json_document, lemma_object_view, members_view, text_field, text_member, Json, JsonModel,
};

verus! {

/// Whether the name is that of one of the OpenID fields that every answer
/// has.
pub open spec fn is_openid_field(name: Seq<char>) -> bool {
    ||| name == "openid.assoc_handle"@
    ||| name == "openid.cla.signed_cla"@
    ||| name == "openid.claimed_id"@
    ||| name == "openid.identity"@
    ||| name == "openid.lp.is_member"@
    ||| name == "openid.mode"@
    ||| name == "openid.ns"@
    ||| name == "openid.ns.cla"@
    ||| name == "openid.ns.lp"@
    ||| name == "openid.ns.sreg"@
    ||| name == "openid.op_endpoint"@
    ||| name == "openid.response_nonce"@
    ||| name == "openid.return_to"@
    ||| name == "openid.sig"@
    ||| name == "openid.signed"@
    ||| name == "openid.sreg.email"@
    ||| name == "openid.sreg.nickname"@
}

/// The members whose name is none of the OpenID fields, in their order.
pub open spec fn extra_members(members: Seq<(Seq<char>, JsonModel)>) -> Seq<
    (Seq<char>, JsonModel),
>
    decreases members.len(),
{
    if members.len() == 0 {
        Seq::empty()
    } else if is_openid_field(members.last().0) {
        extra_members(members.drop_last())
    } else {
        extra_members(members.drop_last()).push(members.last())
    }
}

/// The text by which a value is sent in a form: a text as it is, a number by
/// its digits, a truth value as `true` or `false`. Nothing else can be sent.
pub open spec fn form_value(value: JsonModel) -> Option<Seq<char>> {
    match value {
        JsonModel::Text(s) => Some(s),
        JsonModel::Number(n) => Some(n),
        JsonModel::Bool(b) => Some(
            if b {
                "true"@
            } else {
                "false"@
            },
        ),
        _ => None,
    }
}

/// The form fields of a list of members, in their order; `None` if one of
/// them holds what cannot be sent.
pub open spec fn form_members(members: Seq<(Seq<char>, JsonModel)>) -> Option<
    Seq<(Seq<char>, Seq<char>)>,
>
    decreases members.len(),
{
    if members.len() == 0 {
        Some(Seq::empty())
    } else {
        match (form_members(members.drop_last()), form_value(members.last().1)) {
            (Some(front), Some(value)) => Some(front.push((members.last().0, value))),
            _ => None,
        }
    }
}

/// The OpenID parameters that a provider returns after a successful
/// authentication. On the wire each field has its dotted name, such as
/// `openid.return_to`.
#[derive(Debug)]
pub struct OpenIDParameters {
    pub assoc_handle: String,
    pub cla_signed_cla: String,
    pub claimed_id: String,
    pub identity: String,
    pub lp_is_member: String,
    pub mode: String,
    pub ns: String,
    pub ns_cla: String,
    pub ns_lp: String,
    pub ns_sreg: String,
    pub op_endpoint: String,
    pub response_nonce: String,
    /// The URL to return to for completing the authentication.
    pub return_to: String,
    pub sig: String,
    pub signed: String,
    pub sreg_email: String,
    pub sreg_nickname: String,
    /// Every member of the answer that is none of the fields above.
    pub extra: Vec<(String, Json)>,
}

/// The JSON envelope in which a provider answers.
#[derive(Debug)]
pub struct OpenIDResponse {
    pub success: bool,
    pub response: OpenIDParameters,
}

/// A list with a member that cannot be sent has no form.
proof fn lemma_form_members_none(members: Seq<(Seq<char>, JsonModel)>, i: int)
    requires
        0 <= i < members.len(),
        form_value(members[i].1) is None,
    ensures
        form_members(members) is None,
    decreases members.len(),
{
    if i < members.len() - 1 {
        lemma_form_members_none(members.drop_last(), i);
    }
}

/// Whether the name is that of one of the OpenID fields.
fn is_openid_name(name: &str) -> (r: bool)
    ensures
        r == is_openid_field(name@),
{
    name.eq("openid.assoc_handle") || name.eq("openid.cla.signed_cla") || name.eq(
        "openid.claimed_id",
    ) || name.eq("openid.identity") || name.eq("openid.lp.is_member") || name.eq("openid.mode")
        || name.eq("openid.ns") || name.eq("openid.ns.cla") || name.eq("openid.ns.lp") || name.eq(
        "openid.ns.sreg",
    ) || name.eq("openid.op_endpoint") || name.eq("openid.response_nonce") || name.eq(
        "openid.return_to",
    ) || name.eq("openid.sig") || name.eq("openid.signed") || name.eq("openid.sreg.email")
        || name.eq("openid.sreg.nickname")
}

/// The text by which a value is sent in a form.
fn form_text(value: &Json) -> (r: Option<String>)
    ensures
        match r {
            Some(s) => form_value(value@) == Some(s@),
            None => form_value(value@) is None,
        },
{
    match value {
        Json::Text(s) => Some(s.clone()),
        Json::Number(n) => Some(n.clone()),
        Json::Bool(b) => if *b {
            Some("true".to_string())
        } else {
            Some("false".to_string())
        },
        _ => None,
    }
}

impl OpenIDParameters {
    /// The OpenID fields under their dotted names, in the order in which
    /// they are sent.
    pub open spec fn openid_fields(self) -> Seq<(Seq<char>, Seq<char>)> {
        seq![
            ("openid.assoc_handle"@, self.assoc_handle@),
            ("openid.cla.signed_cla"@, self.cla_signed_cla@),
            ("openid.claimed_id"@, self.claimed_id@),
            ("openid.identity"@, self.identity@),
            ("openid.lp.is_member"@, self.lp_is_member@),
            ("openid.mode"@, self.mode@),
            ("openid.ns"@, self.ns@),
            ("openid.ns.cla"@, self.ns_cla@),
            ("openid.ns.lp"@, self.ns_lp@),
            ("openid.ns.sreg"@, self.ns_sreg@),
            ("openid.op_endpoint"@, self.op_endpoint@),
            ("openid.response_nonce"@, self.response_nonce@),
            ("openid.return_to"@, self.return_to@),
            ("openid.sig"@, self.sig@),
            ("openid.signed"@, self.signed@),
            ("openid.sreg.email"@, self.sreg_email@),
            ("openid.sreg.nickname"@, self.sreg_nickname@),
        ]
    }

    /// The form by which the parameters are sent on: the OpenID fields, then
    /// the extra members. `None` if an extra member cannot be sent.
    pub open spec fn form(self) -> Option<Seq<(Seq<char>, Seq<char>)>> {
        match form_members(members_view(self.extra@)) {
            Some(extra) => Some(self.openid_fields() + extra),
            None => None,
        }
    }

    /// The fields of the form by which the parameters are sent on, each
    /// under its name on the wire.
    pub fn form_fields(&self) -> (r: Option<Vec<(String, String)>>)
        ensures
            match r {
                Some(fields) => self.form() == Some(pairs_view(fields@)),
                None => self.form() is None,
            },
    {
        let mut fields: Vec<(String, String)> = Vec::new();
        fields.push(("openid.assoc_handle".to_string(), self.assoc_handle.clone()));
        fields.push(("openid.cla.signed_cla".to_string(), self.cla_signed_cla.clone()));
        fields.push(("openid.claimed_id".to_string(), self.claimed_id.clone()));
        fields.push(("openid.identity".to_string(), self.identity.clone()));
        fields.push(("openid.lp.is_member".to_string(), self.lp_is_member.clone()));
        fields.push(("openid.mode".to_string(), self.mode.clone()));
        fields.push(("openid.ns".to_string(), self.ns.clone()));
        fields.push(("openid.ns.cla".to_string(), self.ns_cla.clone()));
        fields.push(("openid.ns.lp".to_string(), self.ns_lp.clone()));
        fields.push(("openid.ns.sreg".to_string(), self.ns_sreg.clone()));
        fields.push(("openid.op_endpoint".to_string(), self.op_endpoint.clone()));
        fields.push(("openid.response_nonce".to_string(), self.response_nonce.clone()));
        fields.push(("openid.return_to".to_string(), self.return_to.clone()));
        fields.push(("openid.sig".to_string(), self.sig.clone()));
        fields.push(("openid.signed".to_string(), self.signed.clone()));
        fields.push(("openid.sreg.email".to_string(), self.sreg_email.clone()));
        fields.push(("openid.sreg.nickname".to_string(), self.sreg_nickname.clone()));
        assert(pairs_view(fields@) =~= self.openid_fields());
        let ghost extra = members_view(self.extra@);
        let mut i: usize = 0;
        while i < self.extra.len()
            invariant
                i <= self.extra@.len(),
                extra == members_view(self.extra@),
                form_members(extra.take(i as int)) matches Some(sent) && pairs_view(fields@)
                    == self.openid_fields() + sent,
            decreases self.extra@.len() - i,
        {
            proof {
                assert(extra.take(i + 1).drop_last() =~= extra.take(i as int));
                assert(extra.take(i + 1).last() == extra[i as int]);
            }
            match form_text(&self.extra[i].1) {
                Some(value) => {
                    let ghost before = pairs_view(fields@);
                    let name = self.extra[i].0.clone();
                    fields.push((name, value));
                    assert(pairs_view(fields@) =~= before.push((name@, value@)));
                },
                None => {
                    proof {
                        lemma_form_members_none(extra, i as int);
                    }
                    return None;
                },
            }
            i += 1;
        }
        assert(extra.take(i as int) =~= extra);
        Some(fields)
    }

    /// Whether a document has every OpenID field as a text.
    pub open spec fn readable(doc: JsonModel) -> bool {
        &&& doc is Object
        &&& text_member(doc, "openid.assoc_handle"@) is Some
        &&& text_member(doc, "openid.cla.signed_cla"@) is Some
        &&& text_member(doc, "openid.claimed_id"@) is Some
        &&& text_member(doc, "openid.identity"@) is Some
        &&& text_member(doc, "openid.lp.is_member"@) is Some
        &&& text_member(doc, "openid.mode"@) is Some
        &&& text_member(doc, "openid.ns"@) is Some
        &&& text_member(doc, "openid.ns.cla"@) is Some
        &&& text_member(doc, "openid.ns.lp"@) is Some
        &&& text_member(doc, "openid.ns.sreg"@) is Some
        &&& text_member(doc, "openid.op_endpoint"@) is Some
        &&& text_member(doc, "openid.response_nonce"@) is Some
        &&& text_member(doc, "openid.return_to"@) is Some
        &&& text_member(doc, "openid.sig"@) is Some
        &&& text_member(doc, "openid.signed"@) is Some
        &&& text_member(doc, "openid.sreg.email"@) is Some
        &&& text_member(doc, "openid.sreg.nickname"@) is Some
    }

    /// Whether these are the parameters that a document holds: each field
    /// is the text of the member with its dotted name, and `extra` holds
    /// the other members in their order.
    pub open spec fn read_from(self, doc: JsonModel) -> bool {
        &&& doc matches JsonModel::Object(members)
        &&& members_view(self.extra@) == extra_members(members)
        &&& text_member(doc, "openid.assoc_handle"@) == Some(self.assoc_handle@)
        &&& text_member(doc, "openid.cla.signed_cla"@) == Some(self.cla_signed_cla@)
        &&& text_member(doc, "openid.claimed_id"@) == Some(self.claimed_id@)
        &&& text_member(doc, "openid.identity"@) == Some(self.identity@)
        &&& text_member(doc, "openid.lp.is_member"@) == Some(self.lp_is_member@)
        &&& text_member(doc, "openid.mode"@) == Some(self.mode@)
        &&& text_member(doc, "openid.ns"@) == Some(self.ns@)
        &&& text_member(doc, "openid.ns.cla"@) == Some(self.ns_cla@)
        &&& text_member(doc, "openid.ns.lp"@) == Some(self.ns_lp@)
        &&& text_member(doc, "openid.ns.sreg"@) == Some(self.ns_sreg@)
        &&& text_member(doc, "openid.op_endpoint"@) == Some(self.op_endpoint@)
        &&& text_member(doc, "openid.response_nonce"@) == Some(self.response_nonce@)
        &&& text_member(doc, "openid.return_to"@) == Some(self.return_to@)
        &&& text_member(doc, "openid.sig"@) == Some(self.sig@)
        &&& text_member(doc, "openid.signed"@) == Some(self.signed@)
        &&& text_member(doc, "openid.sreg.email"@) == Some(self.sreg_email@)
        &&& text_member(doc, "openid.sreg.nickname"@) == Some(self.sreg_nickname@)
    }

    /// Reads the parameters from the object that holds them. They are read
    /// exactly if the document has every OpenID field as a text.
    pub fn from_json(doc: Json) -> (r: Option<OpenIDParameters>)
        ensures
            match r {
                Some(params) => params.read_from(doc@),
                None => !OpenIDParameters::readable(doc@),
            },
    {
        let assoc_handle = text_field(&doc, "openid.assoc_handle")?;
        let cla_signed_cla = text_field(&doc, "openid.cla.signed_cla")?;
        let claimed_id = text_field(&doc, "openid.claimed_id")?;
        let identity = text_field(&doc, "openid.identity")?;
        let lp_is_member = text_field(&doc, "openid.lp.is_member")?;
        let mode = text_field(&doc, "openid.mode")?;
        let ns = text_field(&doc, "openid.ns")?;
        let ns_cla = text_field(&doc, "openid.ns.cla")?;
        let ns_lp = text_field(&doc, "openid.ns.lp")?;
        let ns_sreg = text_field(&doc, "openid.ns.sreg")?;
        let op_endpoint = text_field(&doc, "openid.op_endpoint")?;
        let response_nonce = text_field(&doc, "openid.response_nonce")?;
        let return_to = text_field(&doc, "openid.return_to")?;
        let sig = text_field(&doc, "openid.sig")?;
        let signed = text_field(&doc, "openid.signed")?;
        let sreg_email = text_field(&doc, "openid.sreg.email")?;
        let sreg_nickname = text_field(&doc, "openid.sreg.nickname")?;
        match doc {
            Json::Object(members) => {
                proof {
                    lemma_object_view(members);
                }
                let ghost all = members_view(members@);
                let mut extra: Vec<(String, Json)> = Vec::new();
                for member in it: members.into_iter()
                    invariant
                        all == members_view(it.seq()),
                        members_view(extra@) == extra_members(all.take(it.index() as int)),
                {
                    let ghost before = members_view(extra@);
                    proof {
                        let i = it.index() as int;
                        assert(all.take(i + 1).drop_last() =~= all.take(i));
                        assert(all.take(i + 1).last() == (member.0@, member.1@));
                    }
                    if !is_openid_name(member.0.as_str()) {
                        extra.push(member);
                        assert(members_view(extra@) =~= before.push((member.0@, member.1@)));
                    }
                }
                assert(all.take(all.len() as int) =~= all);
                Some(
                    OpenIDParameters {
                        assoc_handle,
                        cla_signed_cla,
                        claimed_id,
                        identity,
                        lp_is_member,
                        mode,
                        ns,
                        ns_cla,
                        ns_lp,
                        ns_sreg,
                        op_endpoint,
                        response_nonce,
                        return_to,
                        sig,
                        signed,
                        sreg_email,
                        sreg_nickname,
                        extra,
                    },
                )
            },
            _ => None,
        }
    }
}

impl OpenIDResponse {
    /// Whether a document is a login envelope: an object with a truth value
    /// `success` and an object `response` that has every OpenID field.
    pub open spec fn readable(doc: JsonModel) -> bool {
        &&& doc.get("success"@) matches Some(JsonModel::Bool(_))
        &&& doc.get("response"@) matches Some(inner)
        &&& OpenIDParameters::readable(inner)
    }

    /// Whether this is the envelope that a document holds.
    pub open spec fn read_from(self, doc: JsonModel) -> bool {
        &&& doc.get("success"@) == Some(JsonModel::Bool(self.success))
        &&& doc.get("response"@) matches Some(inner)
        &&& self.response.read_from(inner)
    }

    /// Reads an envelope from a document. It is read exactly if the
    /// document is a login envelope.
    pub fn from_json(doc: Json) -> (r: Option<OpenIDResponse>)
        ensures
            match r {
                Some(envelope) => envelope.read_from(doc@),
                None => !OpenIDResponse::readable(doc@),
            },
    {
        let success = match doc.member("success") {
            Some(value) => match value.as_bool() {
                Some(b) => b,
                None => {
                    return None;
                },
            },
            None => {
                return None;
            },
        };
        let inner = doc.take_member("response")?;
        let response = OpenIDParameters::from_json(inner)?;
        Some(OpenIDResponse { success, response })
    }

    /// Whether a text holds a login envelope.
    pub open spec fn text_readable(body: Seq<char>) -> bool {
        json_document(body) matches Some(doc) && OpenIDResponse::readable(doc)
    }

    /// Reads an envelope from the text of a provider's answer. It is read
    /// exactly if the text is a JSON document that is a login envelope.
    pub fn from_json_text(body: &str) -> (r: Option<OpenIDResponse>)
        ensures
            match r {
                Some(envelope) => json_document(body@) matches Some(doc) && envelope.read_from(
                    doc,
                ),
                None => !OpenIDResponse::text_readable(body@),
            },
    {
        match Json::parse(body) {
            Ok(doc) => OpenIDResponse::from_json(doc),
            Err(_) => None,
        }
    }
}

} // verus!
