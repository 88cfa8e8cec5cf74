//! The JSON text of a request body: one object whose members are strings.

use vstd::prelude::*;
use vstd::string::StringExecFns;

use crate::kv::KvPair;

verus! {

/// The JSON string literal that `serde_json::to_string` writes for a string:
/// the quotes around it and the escapes inside it.
pub uninterp spec fn json_string(s: Seq<char>) -> Seq<char>;

/// Calls `serde_json::to_string` on a string.
///
/// Trusted: that the literal written depends on the characters of the string
/// alone, so that it can go by the name `json_string`. The serializer fails
/// only on values that refuse to be serialized and on maps with keys that are
/// no strings; a string is neither.
#[verifier::external_body]
fn encode_string(s: &str) -> (literal: String)
    ensures
        literal@ == json_string(s@),
{
    serde_json::to_string(s).unwrap_or_default()
}

/// One member of an object: the key's literal, a colon, the value's literal.
pub open spec fn member_text(literal: (Seq<char>, Seq<char>)) -> Seq<char> {
    literal.0 + seq![':'] + literal.1
}

/// The members of an object in their order, a comma between each two.
pub open spec fn members_text(literals: Seq<(Seq<char>, Seq<char>)>) -> Seq<char>
    decreases literals.len(),
{
    if literals.len() == 0 {
        Seq::empty()
    } else if literals.len() == 1 {
        member_text(literals[0])
    } else {
        members_text(literals.drop_last()) + seq![','] + member_text(literals.last())
    }
}

/// A JSON object in its compact form: no space and no line break anywhere
/// outside the literals.
pub open spec fn object_text(literals: Seq<(Seq<char>, Seq<char>)>) -> Seq<char> {
    seq!['{'] + members_text(literals) + seq!['}']
}

/// The literals of the keys and values of some fields.
pub open spec fn field_literals(fields: Seq<(Seq<char>, Seq<char>)>) -> Seq<
    (Seq<char>, Seq<char>),
> {
    fields.map_values(|f: (Seq<char>, Seq<char>)| (json_string(f.0), json_string(f.1)))
}

/// Frames key and value literals as one compact JSON object.
///
/// The literals are taken as they are: each must already be a JSON string
/// literal for the text to be JSON.
pub fn object_from_literals(literals: &Vec<(String, String)>) -> (text: String)
    ensures
        text@ == object_text(literals.deep_view()),
{
    let ghost all = literals.deep_view();
    let mut text = String::from_str("{");
    proof {
        reveal_strlit("{");
        reveal_strlit("}");
        reveal_strlit(",");
        reveal_strlit(":");
        assert(text@ =~= seq!['{'] + members_text(all.take(0)));
    }
    let mut i: usize = 0;
    while i < literals.len()
        invariant
            all == literals.deep_view(),
            0 <= i <= literals.len(),
            text@ == seq!['{'] + members_text(all.take(i as int)),
            ","@ == seq![','],
            ":"@ == seq![':'],
        decreases literals.len() - i,
    {
        let ghost before = text@;
        if i > 0 {
            text.append(",");
        }
        text.append(literals[i].0.as_str());
        text.append(":");
        text.append(literals[i].1.as_str());
        proof {
            let upto = all.take(i + 1);
            assert(upto.drop_last() =~= all.take(i as int));
            assert(upto.last() == all[i as int]);
            assert(all[i as int] == (literals@[i as int].0@, literals@[i as int].1@));
            assert(text@ =~= seq!['{'] + members_text(upto));
        }
        i += 1;
    }
    text.append("}");
    proof {
        assert(all.take(literals.len() as int) =~= all);
    }
    text
}

/// Writes fields as one compact JSON object of strings, in their order.
pub fn json_object(fields: &Vec<KvPair>) -> (text: String)
    ensures
        text@ == object_text(field_literals(fields.deep_view())),
{
    let mut literals: Vec<(String, String)> = Vec::new();
    let mut i: usize = 0;
    while i < fields.len()
        invariant
            0 <= i <= fields.len(),
            literals.deep_view() == field_literals(fields.deep_view().take(i as int)),
        decreases fields.len() - i,
    {
        let ghost done = literals.deep_view();
        let key = encode_string(fields[i].k.as_str());
        let value = encode_string(fields[i].v.as_str());
        literals.push((key, value));
        proof {
            let upto = fields.deep_view().take(i + 1);
            assert(literals.deep_view() =~= done.push((key@, value@)));
            assert(upto.drop_last() =~= fields.deep_view().take(i as int));
            assert(upto.last() == (fields@[i as int].k@, fields@[i as int].v@));
            assert(field_literals(upto) =~= field_literals(upto.drop_last()).push(
                (json_string(upto.last().0), json_string(upto.last().1)),
            ));
        }
        i += 1;
    }
    proof {
        assert(fields.deep_view().take(fields.len() as int) =~= fields.deep_view());
    }
    object_from_literals(&literals)
}

} // verus!
