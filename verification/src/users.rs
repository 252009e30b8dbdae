//! What a user may change of the own profile.
use vstd::prelude::*;
use crate::errors::AppError;
use crate::errors::ErrorView;
use crate::text::owned;

verus! {

/// A field of a profile that its user may change.
#[derive(Debug, Clone, Copy, PartialEq, Eq, Structural)]
pub enum UserField {
    Name,
    Bio,
    BirthDate,
    Gender,
    LookingFor,
    Latitude,
    Longitude,
}

/// Which fields a request to change a profile gives.
#[derive(Debug, Clone, Copy, PartialEq, Eq, Structural)]
pub struct UpdateFields {
    pub name: bool,
    pub bio: bool,
    pub birth_date: bool,
    pub gender: bool,
    pub looking_for: bool,
    pub latitude: bool,
    pub longitude: bool,
}

/// One field, if it is given.
pub open spec fn given(present: bool, field: UserField) -> Seq<UserField> {
    if present {
        seq![field]
    } else {
        Seq::empty()
    }
}

/// The fields that a request gives, in the order in which they are changed.
pub open spec fn fields_given(fields: UpdateFields) -> Seq<UserField> {
    given(fields.name, UserField::Name) + given(fields.bio, UserField::Bio) + given(
        fields.birth_date,
        UserField::BirthDate,
    ) + given(fields.gender, UserField::Gender) + given(fields.looking_for, UserField::LookingFor)
        + given(fields.latitude, UserField::Latitude) + given(
        fields.longitude,
        UserField::Longitude,
    )
}

/// The column of a field.
pub open spec fn column_spec(field: UserField) -> Seq<char> {
    match field {
        UserField::Name => "name"@,
        UserField::Bio => "bio"@,
        UserField::BirthDate => "birth_date"@,
        UserField::Gender => "gender"@,
        UserField::LookingFor => "looking_for"@,
        UserField::Latitude => "latitude"@,
        UserField::Longitude => "longitude"@,
    }
}

/// The column of a field.
pub fn column_name(field: UserField) -> (name: &'static str)
    ensures
        name@ == column_spec(field),
{
    match field {
        UserField::Name => "name",
        UserField::Bio => "bio",
        UserField::BirthDate => "birth_date",
        UserField::Gender => "gender",
        UserField::LookingFor => "looking_for",
        UserField::Latitude => "latitude",
        UserField::Longitude => "longitude",
    }
}

fn push_given(plan: &mut Vec<UserField>, present: bool, field: UserField)
    ensures
        final(plan)@ == old(plan)@ + given(present, field),
{
    if present {
        plan.push(field);
        assert(plan@ =~= old(plan)@ + given(present, field));
    } else {
        assert(plan@ =~= old(plan)@ + given(present, field));
    }
}

/// The fields to change for a request, each by a statement of its own. A
/// request that gives no field is not acceptable.
pub fn update_plan(fields: UpdateFields) -> (r: Result<Vec<UserField>, AppError>)
    ensures
        r is Ok <==> fields_given(fields).len() > 0,
        r matches Ok(plan) ==> plan@ == fields_given(fields),
        r matches Err(e) ==> e@ == ErrorView::Validation("No fields to update"@),
{
    let mut plan: Vec<UserField> = Vec::new();
    assert(plan@ =~= Seq::<UserField>::empty());
    push_given(&mut plan, fields.name, UserField::Name);
    push_given(&mut plan, fields.bio, UserField::Bio);
    push_given(&mut plan, fields.birth_date, UserField::BirthDate);
    push_given(&mut plan, fields.gender, UserField::Gender);
    push_given(&mut plan, fields.looking_for, UserField::LookingFor);
    push_given(&mut plan, fields.latitude, UserField::Latitude);
    push_given(&mut plan, fields.longitude, UserField::Longitude);
    assert(plan@ =~= fields_given(fields));
    if plan.len() == 0 {
        Err(AppError::Validation(owned("No fields to update")))
    } else {
        Ok(plan)
    }
}

} // verus!
