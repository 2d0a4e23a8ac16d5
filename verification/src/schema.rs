//! The fields that a plan produces.
use arrow::datatypes::{DataType, Schema};
use vstd::prelude::*;
use vstd::string::StringExecFns;

use crate::error::{outcome, DataFusionError, ErrorModel};
use crate::scalar::{clone_data_type, clone_text, same_text, text_model};

verus! {

/// One field of a table, as the storage layer describes it.
#[derive(Debug, PartialEq, Eq)]
pub struct Field {
    pub name: String,
    pub data_type: DataType,
    /// Whether the field may hold nulls.
    pub nullable: bool,
    /// The number of the dictionary, where the type is a dictionary.
    pub dict_id: Option<i64>,
    /// Whether the dictionary is ordered, where the type is a dictionary.
    pub dict_is_ordered: Option<bool>,
    /// Further entries that the storage layer keeps, in the order of their keys.
    pub metadata: Option<Vec<(String, String)>>,
}

/// A [`Field`] with strings and vectors as sequences.
#[verifier::ext_equal]
pub struct FieldModel {
    pub name: Seq<char>,
    pub data_type: DataType,
    pub nullable: bool,
    pub dict_id: Option<i64>,
    pub dict_is_ordered: Option<bool>,
    pub metadata: Option<Seq<(Seq<char>, Seq<char>)>>,
}

/// The entries with their keys and values as sequences of characters, one for one.
pub open spec fn entries_model(entries: Seq<(String, String)>) -> Seq<(Seq<char>, Seq<char>)> {
    entries.map_values(|entry: (String, String)| (entry.0@, entry.1@))
}

/// The entries of a field, where it has any.
pub open spec fn metadata_model(metadata: Option<Vec<(String, String)>>) -> Option<
    Seq<(Seq<char>, Seq<char>)>,
> {
    match metadata {
        Some(entries) => Some(entries_model(entries@)),
        None => None,
    }
}

impl View for Field {
    type V = FieldModel;

    open spec fn view(&self) -> FieldModel {
        FieldModel {
            name: self.name@,
            data_type: self.data_type,
            nullable: self.nullable,
            dict_id: self.dict_id,
            dict_is_ordered: self.dict_is_ordered,
            metadata: metadata_model(self.metadata),
        }
    }
}

fn clone_entries(entries: &Vec<(String, String)>) -> (copy: Vec<(String, String)>)
    ensures
        entries_model(copy@) == entries_model(entries@),
{
    let mut copy: Vec<(String, String)> = Vec::new();
    let ghost all = entries_model(entries@);
    let mut i: usize = 0;
    while i < entries.len()
        invariant
            i <= entries@.len(),
            all == entries_model(entries@),
            entries_model(copy@) == all.take(i as int),
        decreases entries.len() - i,
    {
        let ghost before = copy@;
        copy.push((entries[i].0.clone(), entries[i].1.clone()));
        assert(entries_model(copy@) =~= entries_model(before).push(all[i as int]));
        assert(all.take(i + 1) =~= all.take(i as int).push(all[i as int]));
        i += 1;
    }
    assert(all.take(i as int) =~= all);
    copy
}

impl Clone for Field {
    fn clone(&self) -> (copy: Self)
        ensures
            copy@ == self@,
    {
        let metadata: Option<Vec<(String, String)>> = match &self.metadata {
            Some(entries) => Some(clone_entries(entries)),
            None => None,
        };
        Field {
            name: self.name.clone(),
            data_type: clone_data_type(&self.data_type),
            nullable: self.nullable,
            dict_id: self.dict_id,
            dict_is_ordered: self.dict_is_ordered,
            metadata,
        }
    }
}

/// The models of a sequence of fields, one for one.
pub open spec fn fields_model(fields: Seq<Field>) -> Seq<FieldModel> {
    fields.map_values(|field: Field| field@)
}

/// An ordered collection of fields, as the storage layer describes a table.
#[verifier::external_type_specification]
#[verifier::external_body]
pub struct ExSchema(arrow::datatypes::Schema);

/// The fields that a schema holds, in their order.
pub uninterp spec fn schema_fields(schema: Schema) -> Seq<FieldModel>;

/// Calls `Schema::fields`, and of each field `Field::name`, `Field::data_type`,
/// `Field::is_nullable`, `Field::dict_id`, `Field::dict_is_ordered` and `Field::metadata`: they
/// hand out what the schema holds. The fields come in the schema's order, and the entries of a
/// field in the order of their keys.
#[verifier::external_body]
pub(crate) fn read_fields(schema: &Schema) -> (fields: Vec<Field>)
    ensures
        fields_model(fields@) == schema_fields(*schema),
{
    schema.fields().iter().map(|field| Field {
        name: field.name().clone(),
        data_type: field.data_type().clone(),
        nullable: field.is_nullable(),
        dict_id: field.dict_id(),
        dict_is_ordered: field.dict_is_ordered(),
        metadata: field.metadata().clone().map(|entries| entries.into_iter().collect()),
    }).collect()
}

/// A field of a plan, with the name of the relation that it belongs to where that is known.
#[derive(Debug, PartialEq, Eq)]
pub struct DFField {
    pub qualifier: Option<String>,
    pub field: Field,
}

/// A [`DFField`] with its strings as sequences of characters.
#[verifier::ext_equal]
pub struct DFFieldModel {
    pub qualifier: Option<Seq<char>>,
    pub field: FieldModel,
}

impl View for DFField {
    type V = DFFieldModel;

    open spec fn view(&self) -> DFFieldModel {
        DFFieldModel { qualifier: text_model(self.qualifier), field: self.field@ }
    }
}

impl Clone for DFField {
    fn clone(&self) -> (copy: Self)
        ensures
            copy@ == self@,
    {
        DFField { qualifier: clone_text(&self.qualifier), field: self.field.clone() }
    }
}

/// The models of a sequence of fields, one for one.
pub open spec fn df_fields_model(fields: Seq<DFField>) -> Seq<DFFieldModel> {
    fields.map_values(|field: DFField| field@)
}

/// The same field, of no particular relation.
pub open spec fn unqualified(field: FieldModel) -> DFFieldModel {
    DFFieldModel { qualifier: None, field }
}

/// The field as the storage layer would describe it. One that belongs to a relation is described
/// afresh: by its name, its type and whether it may hold nulls, under the first dictionary number
/// and without further entries.
pub open spec fn described(field: DFFieldModel) -> FieldModel {
    match field.qualifier {
        Some(_) => FieldModel {
            name: field.field.name,
            data_type: field.field.data_type,
            nullable: field.field.nullable,
            dict_id: match field.field.dict_id {
                Some(_) => Some(0),
                None => None,
            },
            dict_is_ordered: match field.field.dict_is_ordered {
                Some(_) => Some(false),
                None => None,
            },
            metadata: None,
        },
        None => field.field,
    }
}

/// Whether a field has the name and the relation of one before it.
pub open spec fn repeats(fields: Seq<DFFieldModel>, i: int) -> bool {
    exists|j: int|
        0 <= j < i && (#[trigger] fields[j]).qualifier == fields[i].qualifier
            && fields[j].field.name == fields[i].field.name
}

/// Whether a field that belongs to a relation has the name of one that belongs to none.
pub open spec fn is_ambiguous(fields: Seq<DFFieldModel>, i: int) -> bool {
    fields[i].qualifier is Some && exists|j: int|
        0 <= j < fields.len() && (#[trigger] fields[j]).qualifier is None && fields[j].field.name
            == fields[i].field.name
}

/// The first of the first `n` fields that repeats one before it.
pub open spec fn first_repeat(fields: Seq<DFFieldModel>, n: int) -> Option<int>
    decreases n,
{
    if n <= 0 {
        None
    } else if first_repeat(fields, n - 1) is Some {
        first_repeat(fields, n - 1)
    } else if repeats(fields, n - 1) {
        Some(n - 1)
    } else {
        None
    }
}

/// The first of the first `n` fields that is ambiguous.
pub open spec fn first_ambiguous(fields: Seq<DFFieldModel>, n: int) -> Option<int>
    decreases n,
{
    if n <= 0 {
        None
    } else if first_ambiguous(fields, n - 1) is Some {
        first_ambiguous(fields, n - 1)
    } else if is_ambiguous(fields, n - 1) {
        Some(n - 1)
    } else {
        None
    }
}

/// The complaint about a field that repeats one before it.
pub open spec fn repeat_error(field: DFFieldModel) -> ErrorModel {
    match field.qualifier {
        Some(qualifier) => ErrorModel::Plan(
            "Schema contains duplicate qualified field name '"@ + qualifier + "."@
                + field.field.name + "'"@,
        ),
        None => ErrorModel::Plan(
            "Schema contains duplicate unqualified field name '"@ + field.field.name + "'"@,
        ),
    }
}

/// The complaint about a field whose name alone could mean another one.
pub open spec fn ambiguity_error(qualifier: Seq<char>, name: Seq<char>) -> ErrorModel {
    ErrorModel::Plan(
        "Schema contains qualified field name '"@ + qualifier + "."@ + name
            + "' and unqualified field name '"@ + name + "' which would be ambiguous"@,
    )
}

/// The schema of the fields: the fields themselves, unless one repeats another or is ambiguous.
pub open spec fn checked_schema(fields: Seq<DFFieldModel>) -> Result<
    Seq<DFFieldModel>,
    ErrorModel,
> {
    match first_repeat(fields, fields.len() as int) {
        Some(i) => Err(repeat_error(fields[i])),
        None => match first_ambiguous(fields, fields.len() as int) {
            Some(i) => Err(ambiguity_error(fields[i].qualifier->0, fields[i].field.name)),
            None => Ok(fields),
        },
    }
}

impl DFField {
    /// The field as the storage layer would describe it.
    fn describe(&self) -> (field: Field)
        ensures
            field@ == described(self@),
    {
        match &self.qualifier {
            Some(_) => Field {
                name: self.field.name.clone(),
                data_type: clone_data_type(&self.field.data_type),
                nullable: self.field.nullable,
                dict_id: match self.field.dict_id {
                    Some(_) => Some(0),
                    None => None,
                },
                dict_is_ordered: match self.field.dict_is_ordered {
                    Some(_) => Some(false),
                    None => None,
                },
                metadata: None,
            },
            None => self.field.clone(),
        }
    }
}

/// The schema of a plan: its fields in their order. No two of them have the same name and the
/// same relation, and a field of no relation shares its name with no other field.
#[derive(Debug, PartialEq, Eq)]
pub struct DFSchema {
    fields: Vec<DFField>,
}

impl View for DFSchema {
    type V = Seq<DFFieldModel>;

    closed spec fn view(&self) -> Seq<DFFieldModel> {
        df_fields_model(self.fields@)
    }
}

fn complain_repeat(field: &DFField) -> (error: DataFusionError)
    ensures
        error@ == repeat_error(field@),
{
    let message: String = match &field.qualifier {
        Some(qualifier) => {
            let mut message: String = "Schema contains duplicate qualified field name '".to_owned();
            message.append(qualifier.as_str());
            message.append(".");
            message.append(field.field.name.as_str());
            message.append("'");
            message
        },
        None => {
            let mut message: String =
                "Schema contains duplicate unqualified field name '".to_owned();
            message.append(field.field.name.as_str());
            message.append("'");
            message
        },
    };
    DataFusionError::Plan(message)
}

fn complain_ambiguous(qualifier: &String, name: &String) -> (error: DataFusionError)
    ensures
        error@ == ambiguity_error(qualifier@, name@),
{
    let mut message: String = "Schema contains qualified field name '".to_owned();
    message.append(qualifier.as_str());
    message.append(".");
    message.append(name.as_str());
    message.append("' and unqualified field name '");
    message.append(name.as_str());
    message.append("' which would be ambiguous");
    DataFusionError::Plan(message)
}

fn repeats_earlier(fields: &Vec<DFField>, i: usize) -> (found: bool)
    requires
        i < fields@.len(),
    ensures
        found == repeats(df_fields_model(fields@), i as int),
{
    let ghost all = df_fields_model(fields@);
    let mut j: usize = 0;
    while j < i
        invariant
            j <= i < fields@.len(),
            all == df_fields_model(fields@),
            forall|k: int|
                0 <= k < j ==> !((#[trigger] all[k]).qualifier == all[i as int].qualifier
                    && all[k].field.name == all[i as int].field.name),
        decreases i - j,
    {
        if same_text(&fields[j].qualifier, &fields[i].qualifier) && fields[j].field.name
            == fields[i].field.name {
            assert(all[j as int].field.name == all[i as int].field.name);
            return true;
        }
        j += 1;
    }
    false
}

fn shares_name_with_unqualified(fields: &Vec<DFField>, name: &String) -> (found: bool)
    ensures
        found == (exists|j: int|
            0 <= j < fields@.len() && (#[trigger] df_fields_model(fields@)[j]).qualifier is None
                && df_fields_model(fields@)[j].field.name == name@),
{
    let ghost all = df_fields_model(fields@);
    let mut j: usize = 0;
    while j < fields.len()
        invariant
            j <= fields@.len(),
            all == df_fields_model(fields@),
            forall|k: int|
                0 <= k < j ==> !((#[trigger] all[k]).qualifier is None && all[k].field.name
                    == name@),
        decreases fields.len() - j,
    {
        if fields[j].qualifier.is_none() && fields[j].field.name == *name {
            assert(all[j as int].qualifier is None);
            return true;
        }
        j += 1;
    }
    false
}

impl DFSchema {
    #[verifier::type_invariant]
    spec fn names_are_clear(self) -> bool {
        checked_schema(df_fields_model(self.fields@)) is Ok
    }

    /// The schema without fields.
    pub fn empty() -> (schema: DFSchema)
        ensures
            schema@ == Seq::<DFFieldModel>::empty(),
    {
        let fields: Vec<DFField> = Vec::new();
        assert(df_fields_model(fields@) =~= Seq::<DFFieldModel>::empty());
        DFSchema { fields }
    }

    /// The schema of the fields, unless one of them repeats another or is ambiguous.
    pub fn new(fields: Vec<DFField>) -> (result: Result<DFSchema, DataFusionError>)
        ensures
            outcome(result) == checked_schema(df_fields_model(fields@)),
    {
        let ghost all = df_fields_model(fields@);
        let mut i: usize = 0;
        while i < fields.len()
            invariant
                i <= fields@.len(),
                all == df_fields_model(fields@),
                first_repeat(all, i as int) is None,
            decreases fields.len() - i,
        {
            if repeats_earlier(&fields, i) {
                proof {
                    lemma_first_repeat_stays(all, i + 1, all.len() as int);
                }
                return Err(complain_repeat(&fields[i]));
            }
            i += 1;
        }
        i = 0;
        while i < fields.len()
            invariant
                i <= fields@.len(),
                all == df_fields_model(fields@),
                first_repeat(all, all.len() as int) is None,
                first_ambiguous(all, i as int) is None,
            decreases fields.len() - i,
        {
            if let Some(qualifier) = &fields[i].qualifier {
                if shares_name_with_unqualified(&fields, &fields[i].field.name) {
                    proof {
                        assert(is_ambiguous(all, i as int));
                        lemma_first_ambiguous_stays(all, i + 1, all.len() as int);
                    }
                    return Err(complain_ambiguous(qualifier, &fields[i].field.name));
                }
            }
            i += 1;
        }
        Ok(DFSchema { fields })
    }

    /// The fields of the schema.
    pub fn fields(&self) -> (fields: &Vec<DFField>)
        ensures
            df_fields_model(fields@) == self@,
    {
        &self.fields
    }

    /// The schema of fields that belong to no relation.
    pub fn from_fields(fields: Vec<Field>) -> (result: Result<DFSchema, DataFusionError>)
        ensures
            outcome(result) == checked_schema(
                fields_model(fields@).map_values(|field: FieldModel| unqualified(field)),
            ),
    {
        let mut df_fields: Vec<DFField> = Vec::new();
        let ghost all = fields_model(fields@).map_values(|field: FieldModel| unqualified(field));
        let mut i: usize = 0;
        while i < fields.len()
            invariant
                i <= fields@.len(),
                all == fields_model(fields@).map_values(|field: FieldModel| unqualified(field)),
                df_fields_model(df_fields@) == all.take(i as int),
            decreases fields.len() - i,
        {
            let ghost before = df_fields@;
            let field = fields[i].clone();
            df_fields.push(DFField { qualifier: None, field });
            assert(df_fields_model(df_fields@) =~= df_fields_model(before).push(all[i as int]));
            assert(all.take(i + 1) =~= all.take(i as int).push(all[i as int]));
            i += 1;
        }
        assert(all.take(i as int) =~= all);
        DFSchema::new(df_fields)
    }

    /// The fields as the storage layer would describe them.
    pub fn to_fields(&self) -> (fields: Vec<Field>)
        ensures
            fields_model(fields@) == self@.map_values(|field: DFFieldModel| described(field)),
    {
        let mut fields: Vec<Field> = Vec::new();
        let ghost all = self@.map_values(|field: DFFieldModel| described(field));
        let mut i: usize = 0;
        while i < self.fields.len()
            invariant
                i <= self.fields@.len(),
                all == self@.map_values(|field: DFFieldModel| described(field)),
                fields_model(fields@) == all.take(i as int),
            decreases self.fields.len() - i,
        {
            let ghost before = fields@;
            fields.push(self.fields[i].describe());
            assert(fields_model(fields@) =~= fields_model(before).push(all[i as int]));
            assert(all.take(i + 1) =~= all.take(i as int).push(all[i as int]));
            i += 1;
        }
        assert(all.take(i as int) =~= all);
        fields
    }

    /// The schema with the fields of `right` behind those of `self`.
    pub fn join(&self, right: &DFSchema) -> (result: Result<DFSchema, DataFusionError>)
        ensures
            outcome(result) == checked_schema(self@ + right@),
    {
        let mut fields: Vec<DFField> = clone_df_fields(&self.fields);
        let mut more: Vec<DFField> = clone_df_fields(&right.fields);
        let ghost left_fields = fields@;
        let ghost right_fields = more@;
        fields.append(&mut more);
        assert(df_fields_model(left_fields + right_fields) =~= self@ + right@);
        DFSchema::new(fields)
    }
}

fn clone_df_fields(fields: &Vec<DFField>) -> (copy: Vec<DFField>)
    ensures
        df_fields_model(copy@) == df_fields_model(fields@),
{
    let mut copy: Vec<DFField> = Vec::new();
    let ghost all = df_fields_model(fields@);
    let mut i: usize = 0;
    while i < fields.len()
        invariant
            i <= fields@.len(),
            all == df_fields_model(fields@),
            df_fields_model(copy@) == all.take(i as int),
        decreases fields.len() - i,
    {
        let ghost before = copy@;
        copy.push(fields[i].clone());
        assert(df_fields_model(copy@) =~= df_fields_model(before).push(all[i as int]));
        assert(all.take(i + 1) =~= all.take(i as int).push(all[i as int]));
        i += 1;
    }
    assert(all.take(i as int) =~= all);
    copy
}

impl Clone for DFSchema {
    fn clone(&self) -> (copy: Self)
        ensures
            copy@ == self@,
    {
        proof {
            use_type_invariant(self);
        }
        DFSchema { fields: clone_df_fields(&self.fields) }
    }
}

proof fn lemma_first_repeat_stays(fields: Seq<DFFieldModel>, n: int, m: int)
    requires
        n <= m,
        first_repeat(fields, n) is Some,
    ensures
        first_repeat(fields, m) == first_repeat(fields, n),
    decreases m - n,
{
    if n < m {
        lemma_first_repeat_stays(fields, n, m - 1);
    }
}

proof fn lemma_first_ambiguous_stays(fields: Seq<DFFieldModel>, n: int, m: int)
    requires
        n <= m,
        first_ambiguous(fields, n) is Some,
    ensures
        first_ambiguous(fields, m) == first_ambiguous(fields, n),
    decreases m - n,
{
    if n < m {
        lemma_first_ambiguous_stays(fields, n, m - 1);
    }
}

/// Which rows a join keeps.
#[derive(Clone, Copy, Debug, PartialEq, Eq, Structural)]
pub enum JoinType {
    Inner,
    Left,
    Right,
    Full,
    /// The rows of the left side that have a match, without those of the right side.
    Semi,
    /// The rows of the left side that have no match.
    Anti,
}

/// The fields of a join: those of both sides, or of the left side alone where the right side
/// only decides which rows stay.
pub open spec fn join_fields(
    left: Seq<DFFieldModel>,
    right: Seq<DFFieldModel>,
    join_type: JoinType,
) -> Seq<DFFieldModel> {
    match join_type {
        JoinType::Inner | JoinType::Left | JoinType::Right | JoinType::Full => left + right,
        JoinType::Semi | JoinType::Anti => left,
    }
}

/// The schema of the join of two plans.
pub fn build_join_schema(
    left: &DFSchema,
    right: &DFSchema,
    join_type: &JoinType,
) -> (result: Result<DFSchema, DataFusionError>)
    ensures
        outcome(result) == checked_schema(join_fields(left@, right@, *join_type)),
{
    match join_type {
        JoinType::Inner | JoinType::Left | JoinType::Right | JoinType::Full => left.join(right),
        JoinType::Semi | JoinType::Anti => DFSchema::new(clone_df_fields(&left.fields)),
    }
}

/// Fields with the same model are the same in every part.
pub proof fn law_model_tells_fields_apart(left: DFField, right: DFField)
    requires
        left@ == right@,
    ensures
        left.qualifier is Some <==> right.qualifier is Some,
        left.qualifier is Some ==> left.qualifier->0@ == right.qualifier->0@,
        left.field.name@ == right.field.name@,
        left.field.data_type == right.field.data_type,
        left.field.nullable == right.field.nullable,
        left.field.dict_id == right.field.dict_id,
        left.field.dict_is_ordered == right.field.dict_is_ordered,
        left.field.metadata is Some <==> right.field.metadata is Some,
        left.field.metadata matches Some(l) ==> {
            let r = right.field.metadata->0;
            &&& l@.len() == r@.len()
            &&& forall|i: int|
                0 <= i < l@.len() ==> (#[trigger] l@[i]).0@ == r@[i].0@ && l@[i].1@ == r@[i].1@
        },
{
    if let (Some(l), Some(r)) = (left.field.metadata, right.field.metadata) {
        assert(entries_model(l@) == entries_model(r@));
        assert(entries_model(l@).len() == l@.len());
        assert(entries_model(r@).len() == r@.len());
        assert forall|i: int| 0 <= i < l@.len() implies (#[trigger] l@[i]).0@ == r@[i].0@
            && l@[i].1@ == r@[i].1@ by {
            assert(entries_model(l@)[i] == entries_model(r@)[i]);
        }
    }
}

/// Schemas with the same model hold the same fields in the same order.
pub proof fn law_model_tells_schemas_apart(
    left: &DFSchema,
    right: &DFSchema,
    left_fields: &Vec<DFField>,
    right_fields: &Vec<DFField>,
)
    requires
        left@ == right@,
        call_ensures(DFSchema::fields, (left,), left_fields),
        call_ensures(DFSchema::fields, (right,), right_fields),
    ensures
        left_fields@.len() == right_fields@.len(),
        forall|i: int|
            0 <= i < left_fields@.len() ==> (#[trigger] left_fields@[i])@ == right_fields@[i]@,
{
    let l = df_fields_model(left_fields@);
    let r = df_fields_model(right_fields@);
    assert(l.len() == left_fields@.len());
    assert(r.len() == right_fields@.len());
    assert forall|i: int| 0 <= i < left_fields@.len() implies (#[trigger] left_fields@[i])@
        == right_fields@[i]@ by {
        assert(l[i] == r[i]);
    }
}

} // verus!
