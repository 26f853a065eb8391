//! Input schemas: the structural description of the parameters an
//! operation accepts, and validation of request payloads against them.

use vstd::prelude::*;
use crate::json::{JsonVal, get_spec, text_of};

verus! {

/// The shape a parameter field must have.
pub enum FieldType {
    Text,
    Integer,
    Boolean,
    /// An array whose elements are all text.
    TextList,
    /// Any object.
    Object,
}

/// One named parameter field: its shape and whether a payload must
/// carry it.
pub struct FieldSpec {
    pub name: String,
    pub ty: FieldType,
    pub required: bool,
}

/// The structural description of an operation's parameters: a payload
/// must be an object carrying every required field with its declared
/// shape; optional fields may be absent, but must match their shape
/// when present.  Fields the schema does not name are ignored.
pub struct Schema {
    pub fields: Vec<FieldSpec>,
}

/// Whether `v` has the shape `ty`.
pub open spec fn type_matches(v: JsonVal, ty: FieldType) -> bool {
    match ty {
        FieldType::Text => v is Text,
        FieldType::Integer => v is Int,
        FieldType::Boolean => v is Bool,
        FieldType::TextList => match v {
            JsonVal::Arr(xs) => forall|i: int| 0 <= i < xs@.len() ==> (#[trigger] xs@[i]) is Text,
            _ => false,
        },
        FieldType::Object => v is Obj,
    }
}

/// Whether `p` satisfies the single field description `f`.
pub open spec fn field_ok(p: JsonVal, f: FieldSpec) -> bool {
    match get_spec(p, f.name@) {
        Some(v) => type_matches(v, f.ty),
        None => !f.required,
    }
}

/// Whether the payload `p` satisfies the whole schema `s`.
pub open spec fn payload_valid(s: Schema, p: JsonVal) -> bool {
    &&& p is Obj
    &&& forall|i: int| 0 <= i < s.fields@.len() ==> field_ok(p, #[trigger] s.fields@[i])
}

/// Why a payload was rejected, with the offending field's name.
pub enum ValidationError {
    NotAnObject,
    MissingField(String),
    WrongType(String),
}

fn matches_type(v: &JsonVal, ty: &FieldType) -> (r: bool)
    ensures
        r == type_matches(*v, *ty),
{
    match ty {
        FieldType::Text => matches!(v, JsonVal::Text(_)),
        FieldType::Integer => matches!(v, JsonVal::Int(_)),
        FieldType::Boolean => matches!(v, JsonVal::Bool(_)),
        FieldType::TextList => match v {
            JsonVal::Arr(xs) => {
                let mut k: usize = 0;
                let mut all_text: bool = true;
                while k < xs.len()
                    invariant
                        0 <= k <= xs@.len(),
                        all_text == (forall|i: int|
                            0 <= i < k ==> (#[trigger] xs@[i]) is Text),
                    decreases xs@.len() - k,
                {
                    let this_text: bool = matches!(&xs[k], JsonVal::Text(_));
                    all_text = all_text && this_text;
                    k = k + 1;
                }
                all_text
            },
            _ => false,
        },
        FieldType::Object => matches!(v, JsonVal::Obj(_)),
    }
}

/// Validates `p` against `s`: accepts exactly the payloads that are
/// objects carrying every required field well-typed and every present
/// optional field well-typed; each rejection names its reason.
pub fn validate(s: &Schema, p: &JsonVal) -> (r: Result<(), ValidationError>)
    ensures
        r is Ok <==> payload_valid(*s, *p),
        match r {
            Ok(()) => true,
            Err(ValidationError::NotAnObject) => !(*p is Obj),
            Err(ValidationError::MissingField(n)) => *p is Obj && exists|i: int|
                0 <= i < s.fields@.len() && (#[trigger] s.fields@[i]).name@ == n@
                    && s.fields@[i].required && get_spec(*p, n@) is None,
            Err(ValidationError::WrongType(n)) => *p is Obj && exists|i: int|
                0 <= i < s.fields@.len() && (#[trigger] s.fields@[i]).name@ == n@ && match get_spec(
                    *p,
                    n@,
                ) {
                    Some(v) => !type_matches(v, s.fields@[i].ty),
                    None => false,
                },
        },
{
    let is_obj: bool = matches!(p, JsonVal::Obj(_));
    if !is_obj {
        return Err(ValidationError::NotAnObject);
    }
    let mut k: usize = 0;
    while k < s.fields.len()
        invariant
            0 <= k <= s.fields@.len(),
            *p is Obj,
            forall|i: int| 0 <= i < k ==> field_ok(*p, #[trigger] s.fields@[i]),
        decreases s.fields@.len() - k,
    {
        let f: &FieldSpec = &s.fields[k];
        match p.get(f.name.as_str()) {
            Some(v) => {
                if !matches_type(v, &f.ty) {
                    return Err(ValidationError::WrongType(f.name.clone()));
                }
            },
            None => {
                if f.required {
                    return Err(ValidationError::MissingField(f.name.clone()));
                }
            },
        }
        k = k + 1;
    }
    Ok(())
}

/// The protocol's name for a field shape.
pub open spec fn type_name_of(ty: FieldType) -> Seq<char> {
    match ty {
        FieldType::Text => "string"@,
        FieldType::Integer => "integer"@,
        FieldType::Boolean => "boolean"@,
        FieldType::TextList => "array"@,
        FieldType::Object => "object"@,
    }
}

/// The names of the required fields, in order, as text values.
pub open spec fn required_names(fields: Seq<FieldSpec>) -> Seq<JsonVal>
    decreases fields.len(),
{
    if fields.len() == 0 {
        Seq::<JsonVal>::empty()
    } else {
        required_names(fields.drop_last()) + (if fields.last().required {
            seq![JsonVal::Text(fields.last().name)]
        } else {
            Seq::<JsonVal>::empty()
        })
    }
}

/// Whether `p` is the property entry describing `f`: the field's name
/// bound to an object giving its shape.
pub open spec fn prop_entry_ok(p: (String, JsonVal), f: FieldSpec) -> bool {
    &&& p.0 == f.name
    &&& match p.1 {
        JsonVal::Obj(es) => es@.len() == 1 && es@[0].0@ == "type"@ && text_of(es@[0].1) == Some(
            type_name_of(f.ty),
        ),
        _ => false,
    }
}

fn type_name_string(ty: &FieldType) -> (r: String)
    ensures
        r@ == type_name_of(*ty),
{
    let mut s: String = String::new();
    match ty {
        FieldType::Text => s.append("string"),
        FieldType::Integer => s.append("integer"),
        FieldType::Boolean => s.append("boolean"),
        FieldType::TextList => s.append("array"),
        FieldType::Object => s.append("object"),
    }
    proof {
        assert(s@ =~= type_name_of(*ty));
    }
    s
}

impl Schema {
    /// The structured description handed to the protocol layer for
    /// discovery: an object schema naming each property's shape and
    /// listing the required property names in order.
    #[verifier::loop_isolation(false)]
    pub fn to_json(&self) -> (r: JsonVal)
        ensures
            match r {
                JsonVal::Obj(es) => {
                    &&& es@.len() == 3
                    &&& es@[0].0@ == "type"@ && text_of(es@[0].1) == Some("object"@)
                    &&& es@[1].0@ == "properties"@ && match es@[1].1 {
                        JsonVal::Obj(ps) => ps@.len() == self.fields@.len() && forall|i: int|
                            0 <= i < ps@.len() ==> prop_entry_ok(
                                #[trigger] ps@[i],
                                self.fields@[i],
                            ),
                        _ => false,
                    }
                    &&& es@[2].0@ == "required"@ && match es@[2].1 {
                        JsonVal::Arr(xs) => xs@ == required_names(self.fields@),
                        _ => false,
                    }
                },
                _ => false,
            },
    {
        let mut props: Vec<(String, JsonVal)> = Vec::new();
        let mut k: usize = 0;
        while k < self.fields.len()
            invariant
                0 <= k <= self.fields@.len(),
                props@.len() == k,
                forall|i: int| 0 <= i < k ==> prop_entry_ok(#[trigger] props@[i], self.fields@[i]),
            decreases self.fields@.len() - k,
        {
            let mut shape: Vec<(String, JsonVal)> = Vec::new();
            let mut key_ty: String = String::new();
            key_ty.append("type");
            shape.push((key_ty, JsonVal::Text(type_name_string(&self.fields[k].ty))));
            props.push((self.fields[k].name.clone(), JsonVal::Obj(shape)));
            k = k + 1;
        }
        let mut required: Vec<JsonVal> = Vec::new();
        let mut k2: usize = 0;
        proof {
            assert(required@ =~= required_names(self.fields@.take(0)));
        }
        while k2 < self.fields.len()
            invariant
                0 <= k2 <= self.fields@.len(),
                required@ == required_names(self.fields@.take(k2 as int)),
            decreases self.fields@.len() - k2,
        {
            if self.fields[k2].required {
                required.push(JsonVal::Text(self.fields[k2].name.clone()));
            }
            proof {
                assert(self.fields@.take((k2 + 1) as int).drop_last() =~= self.fields@.take(
                    k2 as int,
                ));
                assert(self.fields@.take((k2 + 1) as int).last() == self.fields@[k2 as int]);
                assert(required@ =~= required_names(self.fields@.take((k2 + 1) as int)));
            }
            k2 = k2 + 1;
        }
        proof {
            assert(self.fields@.take(self.fields@.len() as int) =~= self.fields@);
        }
        let mut es: Vec<(String, JsonVal)> = Vec::new();
        let mut key_type: String = String::new();
        key_type.append("type");
        let mut val_obj: String = String::new();
        val_obj.append("object");
        es.push((key_type, JsonVal::Text(val_obj)));
        let mut key_props: String = String::new();
        key_props.append("properties");
        es.push((key_props, JsonVal::Obj(props)));
        let mut key_req: String = String::new();
        key_req.append("required");
        es.push((key_req, JsonVal::Arr(required)));
        JsonVal::Obj(es)
    }
}

} // verus!
