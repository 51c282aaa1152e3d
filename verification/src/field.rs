//! The decoded fields of a register value.

use vstd::prelude::*;

verus! {

/// One field of a decoded register value, with the fields nested in it.
#[derive(Debug, PartialEq, Eq)]
pub struct Field {
    /// The short name of the field.
    pub name: String,
    /// The descriptive name of the field, where it has one.
    pub long_name: Option<String>,
    /// The index of the lowest bit of the field.
    pub start: usize,
    /// The number of bits in the field.
    pub width: usize,
    /// The value of the field.
    pub value: u64,
    /// What the value means, where that is known. It may hold `#` markers.
    pub description: Option<String>,
    /// The fields into which this field divides.
    pub subfields: Vec<Field>,
}

/// The mathematical value of a [`Field`].
pub ghost struct FieldModel {
    pub name: Seq<char>,
    pub long_name: Option<Seq<char>>,
    pub start: nat,
    pub width: nat,
    pub value: nat,
    pub description: Option<Seq<char>>,
    pub subfields: Seq<FieldModel>,
}

impl View for Field {
    type V = FieldModel;

    open spec fn view(&self) -> FieldModel
        decreases self,
    {
        FieldModel {
            name: self.name@,
            long_name: self.long_name.deep_view(),
            start: self.start as nat,
            width: self.width as nat,
            value: self.value as nat,
            description: self.description.deep_view(),
            subfields: models_of(self.subfields@),
        }
    }
}

/// The models of a sequence of fields, in order.
pub open spec fn models_of(fields: Seq<Field>) -> Seq<FieldModel>
    decreases fields,
{
    if fields.len() == 0 {
        Seq::empty()
    } else {
        models_of(fields.drop_last()).push(fields.last()@)
    }
}

impl DeepView for Field {
    type V = FieldModel;

    open spec fn deep_view(&self) -> FieldModel {
        self@
    }
}

/// The models of a sequence of fields are the models of its items.
pub proof fn lemma_models_of(fields: Seq<Field>)
    ensures
        models_of(fields).len() == fields.len(),
        forall|i: int| 0 <= i < fields.len() ==> (#[trigger] models_of(fields)[i]) == fields[i]@,
    decreases fields.len(),
{
    if fields.len() > 0 {
        lemma_models_of(fields.drop_last());
        assert(models_of(fields) == models_of(fields.drop_last()).push(fields.last()@));
    }
}

/// The model of a field's subfields is the model of the vector that holds
/// them.
pub proof fn lemma_subfields_view(field: &Field)
    ensures
        field@.subfields == field.subfields.deep_view(),
{
    lemma_models_of(field.subfields@);
}

impl Clone for Field {
    /// A copy of the field, with copies of the fields nested in it.
    fn clone(&self) -> (copy: Self)
        ensures
            copy@ == self@,
        decreases self,
    {
        let mut subfields: Vec<Field> = Vec::new();
        let mut i: usize = 0;
        while i < self.subfields.len()
            invariant
                i <= self.subfields.len(),
                subfields.deep_view() == self.subfields.deep_view().take(i as int),
            decreases self.subfields.len() - i,
        {
            let ghost before = subfields.deep_view();
            let kid = self.subfields[i].clone();
            subfields.push(kid);
            assert(subfields.deep_view() =~= before.push(kid@));
            i = i + 1;
        }
        assert(self.subfields.deep_view().take(i as int) =~= self.subfields.deep_view());
        let copy = Field {
            name: self.name.clone(),
            long_name: self.long_name.clone(),
            start: self.start,
            width: self.width,
            value: self.value,
            description: self.description.clone(),
            subfields,
        };
        proof {
            lemma_subfields_view(self);
            lemma_subfields_view(&copy);
        }
        copy
    }
}

/// Whether every field, at every depth, occupies at least one bit.
pub open spec fn renderable(fields: Seq<FieldModel>) -> bool
    decreases fields,
{
    forall|i: int|
        0 <= i < fields.len() ==> (#[trigger] fields[i]).width >= 1 && renderable(
            fields[i].subfields,
        )
}

/// Tests whether every field, at every depth, occupies at least one bit.
pub fn is_renderable(fields: &Vec<Field>) -> (ok: bool)
    ensures
        ok == renderable(fields.deep_view()),
    decreases fields,
{
    let mut i: usize = 0;
    while i < fields.len()
        invariant
            i <= fields.len(),
            forall|j: int|
                0 <= j < i ==> (#[trigger] fields.deep_view()[j]).width >= 1 && renderable(
                    fields.deep_view()[j].subfields,
                ),
        decreases fields.len() - i,
    {
        let field = &fields[i];
        proof {
            lemma_subfields_view(field);
        }
        if field.width == 0 || !is_renderable(&field.subfields) {
            assert(!(fields.deep_view()[i as int].width >= 1 && renderable(
                fields.deep_view()[i as int].subfields,
            )));
            return false;
        }
        i = i + 1;
    }
    true
}

} // verus!
