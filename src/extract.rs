//! Finds the power and voltage samples in the device's XML export.
use vstd::prelude::*;
use vstd::string::StringExecFns;
use crate::error::{Field, PollError, field_name};

verus! {

/// sxd_document's parsed document, carried from the parser to the queries.
#[verifier::external_type_specification]
#[verifier::external_body]
pub struct ExPackage(sxd_document::Package);

/// sxd_document's parse failure; only its presence is used.
#[verifier::external_type_specification]
#[verifier::external_body]
pub struct ExXmlError(sxd_document::parser::Error);

/// Whether sxd_document's parser accepts `text` as an XML document.
pub uninterp spec fn xml_well_formed(text: Seq<char>) -> bool;

/// Relies on sxd_document::parser::parse: it returns `Ok` exactly on the texts
/// it accepts as XML, and which those are depends on the text alone.
pub assume_specification[ sxd_document::parser::parse ](xml: &str) -> (r: Result<
    sxd_document::Package,
    sxd_document::parser::Error,
>)
    ensures
        r is Ok <==> xml_well_formed(xml@),
;

/// The string values, in document order, of the nodes that `query` selects in
/// the document `xml`; `None` where `xml` is no document, or the query fails or
/// selects no node set. Stated only for the field queries, which name no
/// prefix and select text nodes, so that their order is fixed by the document.
pub uninterp spec fn xpath_texts(xml: Seq<char>, query: Seq<char>) -> Option<Seq<Seq<char>>>;

/// Whether the samples found by a query are present and non-empty.
pub open spec fn has_samples(found: Option<Seq<Seq<char>>>) -> bool {
    found is Some && found->Some_0.len() > 0
}

/// Relies on sxd_document::parser::parse and sxd_xpath::evaluate_xpath: the
/// string values of the nodes that `query` selects, in the order that
/// `Nodeset::document_order` gives, or `None` where the text is no document or
/// the query fails or selects no node set. Only the field queries are admitted:
/// a prefixed name test would panic in the empty evaluation context, and
/// namespace nodes have no fixed document order.
#[verifier::external_body]
fn query_texts(xml: &str, query: &str) -> (r: Option<Vec<String>>)
    requires
        query@ == field_query_spec(Field::Power) || query@ == field_query_spec(Field::Voltage),
    ensures
        r is Some <==> xpath_texts(xml@, query@) is Some,
        r matches Some(v) ==> v@.map_values(|s: String| s@) == xpath_texts(xml@, query@)->Some_0,
{
    let package = sxd_document::parser::parse(xml).ok()?;
    let document = package.as_document();
    match sxd_xpath::evaluate_xpath(&document, query) {
        Ok(sxd_xpath::Value::Nodeset(nodes)) => Some(
            nodes.document_order().iter().map(|n| n.string_value()).collect(),
        ),
        _ => None,
    }
}

/// The XPath query that selects every text node under a `field` element.
pub open spec fn field_query_spec(f: Field) -> Seq<char> {
    "//"@ + field_name(f) + "/text()"@
}

/// The query for all text nodes of `field`, at any depth.
pub fn field_query(field: Field) -> (r: &'static str)
    ensures
        r@ == field_query_spec(field),
{
    proof {
        reveal_strlit("//");
        reveal_strlit("/text()");
        reveal_strlit("POWER");
        reveal_strlit("VOLTAGE");
        reveal_strlit("//POWER/text()");
        reveal_strlit("//VOLTAGE/text()");
    }
    match field {
        Field::Power => {
            assert("//POWER/text()"@ =~= field_query_spec(field));
            "//POWER/text()"
        },
        Field::Voltage => {
            assert("//VOLTAGE/text()"@ =~= field_query_spec(field));
            "//VOLTAGE/text()"
        },
    }
}

/// The samples of both fields, as the document spells them.
pub struct FieldTexts {
    pub power: Vec<String>,
    pub voltage: Vec<String>,
}

/// Accepts what the query for `field` found when it holds at least one sample,
/// and otherwise fails naming `field`.
pub fn field_values(field: Field, found: Option<Vec<String>>) -> (r: Result<Vec<String>, PollError>)
    ensures
        r is Ok <==> (found matches Some(v) && v.len() > 0),
        r matches Ok(v) ==> found == Some(v),
        r matches Err(e) ==> e == (PollError::MissingField { field }),
{
    match found {
        Some(v) => if v.len() > 0 {
            Ok(v)
        } else {
            Err(PollError::MissingField { field })
        },
        None => Err(PollError::MissingField { field }),
    }
}

/// Combines what the two queries found into the samples of both fields. Each
/// must hold at least one sample; `POWER` is judged first, so where both are
/// missing the error names `POWER`.
pub fn field_texts(power: Option<Vec<String>>, voltage: Option<Vec<String>>) -> (r: Result<FieldTexts, PollError>)
    ensures
        r is Ok <==> (power matches Some(p) && p.len() > 0) && (voltage matches Some(v) && v.len() > 0),
        r matches Ok(t) ==> power == Some(t.power) && voltage == Some(t.voltage),
        r matches Err(e) ==> e == (PollError::MissingField {
            field: if power matches Some(p) && p.len() > 0 { Field::Voltage } else { Field::Power },
        }),
{
    match field_values(Field::Power, power) {
        Err(e) => Err(e),
        Ok(p) => match field_values(Field::Voltage, voltage) {
            Err(e) => Err(e),
            Ok(v) => Ok(FieldTexts { power: p, voltage: v }),
        },
    }
}

/// Parses `body` as XML and collects the text of every `POWER` and every
/// `VOLTAGE` element, at any depth and in document order. A body that is not
/// XML fails with `Parse` before any query runs; a field with no sample fails
/// with `MissingField`, `POWER` judged first.
pub fn extract_texts(body: &str) -> (r: Result<FieldTexts, PollError>)
    ensures
        !xml_well_formed(body@) <==> (r matches Err(PollError::Parse { body: b }) && b@ == body@),
        xml_well_formed(body@) ==> {
            let p = xpath_texts(body@, field_query_spec(Field::Power));
            let v = xpath_texts(body@, field_query_spec(Field::Voltage));
            &&& (r is Ok <==> has_samples(p) && has_samples(v))
            &&& (r matches Ok(t) ==> t.power@.map_values(|s: String| s@) == p->Some_0
                && t.voltage@.map_values(|s: String| s@) == v->Some_0)
            &&& (r matches Err(e) ==> e == (PollError::MissingField {
                field: if has_samples(p) { Field::Voltage } else { Field::Power },
            }))
        },
        r matches Ok(t) ==> t.power.len() > 0 && t.voltage.len() > 0,
{
    match sxd_document::parser::parse(body) {
        Err(_) => Err(PollError::Parse { body: String::from_str(body) }),
        Ok(_) => {
            let power = query_texts(body, field_query(Field::Power));
            let voltage = query_texts(body, field_query(Field::Voltage));
            field_texts(power, voltage)
        },
    }
}

/// Judges the samples of `field`, given for each whether it reads as a number:
/// the first one that does not is the error, naming its text and `field`.
pub fn check_numbers(field: Field, texts: &Vec<String>, parsed: &Vec<bool>) -> (r: Result<(), PollError>)
    requires
        texts.len() == parsed.len(),
    ensures
        r is Ok <==> forall|i: int| 0 <= i < parsed.len() ==> parsed[i],
        r matches Err(e) ==> exists|i: int|
            0 <= i < parsed.len() && !parsed[i] && (forall|j: int| 0 <= j < i ==> parsed[j])
                && e == (PollError::NumericParse { text: texts[i], field }),
{
    let mut i: usize = 0;
    while i < texts.len()
        invariant
            i <= texts.len(),
            texts.len() == parsed.len(),
            forall|j: int| 0 <= j < i ==> parsed[j],
        decreases texts.len() - i,
    {
        if !parsed[i] {
            let text = texts[i].clone();
            return Err(PollError::NumericParse { text, field });
        }
        i += 1;
    }
    Ok(())
}

} // verus!
