//! User API types.
use vstd::prelude::*;
use crate::client::{describe_error, error_text, FromMessage};
use crate::json::{json_string, quote};

verus! {

/// Errors of the user API.
#[derive(Debug)]
pub enum UserError {
    /// The request could not be sent.
    RequestFailed(String),
    /// The API answered with an error, or with a response that could not be used.
    ApiError(String),
}

impl UserError {
    /// The error as a sentence.
    pub fn describe(&self) -> (r: String)
        ensures
            r@ == error_text(self is RequestFailed, self.message()),
    {
        match self {
            UserError::RequestFailed(m) => describe_error(true, m.as_str()),
            UserError::ApiError(m) => describe_error(false, m.as_str()),
        }
    }
}

impl FromMessage for UserError {
    open spec fn message(&self) -> Seq<char> {
        match self {
            UserError::RequestFailed(m) => m@,
            UserError::ApiError(m) => m@,
        }
    }

    open spec fn reports(&self, message: Seq<char>) -> bool {
        self matches UserError::ApiError(m) && m@ == message
    }

    fn from_message(message: String) -> (e: Self) {
        UserError::ApiError(message)
    }
}

impl From<String> for UserError {
    fn from(error: String) -> (e: Self) {
        UserError::ApiError(error)
    }
}

impl vstd::std_specs::convert::FromSpecImpl<String> for UserError {
    open spec fn obeys_from_spec() -> bool {
        true
    }

    open spec fn from_spec(v: String) -> Self {
        UserError::ApiError(v)
    }
}

/// Gender, as the API names it.
#[derive(Debug, Clone, Copy, PartialEq, Eq, Structural)]
pub enum Gender {
    Male,
    Female,
    Na,
}

/// Unit system for heights.
#[derive(Debug, Clone, Copy, PartialEq, Eq, Structural)]
pub enum HeightUnit {
    Metric,
    Us,
}

/// Unit system for weights.
#[derive(Debug, Clone, Copy, PartialEq, Eq, Structural)]
pub enum WeightUnit {
    Metric,
    Us,
}

/// The JSON value of a gender.
pub open spec fn gender_json(g: Gender) -> Seq<char> {
    match g {
        Gender::Male => "\"MALE\""@,
        Gender::Female => "\"FEMALE\""@,
        Gender::Na => "\"NA\""@,
    }
}

/// The JSON value of a height unit.
pub open spec fn height_unit_json(u: HeightUnit) -> Seq<char> {
    match u {
        HeightUnit::Metric => "\"METRIC\""@,
        HeightUnit::Us => "\"US\""@,
    }
}

/// The JSON value of a weight unit.
pub open spec fn weight_unit_json(u: WeightUnit) -> Seq<char> {
    match u {
        WeightUnit::Metric => "\"METRIC\""@,
        WeightUnit::Us => "\"US\""@,
    }
}

/// Changes to a user's profile; only the fields that are set are sent.
#[derive(Debug)]
pub struct UpdateProfileParams {
    pub full_name: Option<String>,
    pub display_name: Option<String>,
    pub date_of_birth: Option<String>,
    pub gender: Option<Gender>,
    pub height_unit: Option<HeightUnit>,
    pub weight_unit: Option<WeightUnit>,
    pub height: Option<String>,
}

impl Default for UpdateProfileParams {
    fn default() -> (r: Self)
        ensures
            r.full_name is None,
            r.display_name is None,
            r.date_of_birth is None,
            r.gender is None,
            r.height_unit is None,
            r.weight_unit is None,
            r.height is None,
    {
        UpdateProfileParams {
            full_name: None,
            display_name: None,
            date_of_birth: None,
            gender: None,
            height_unit: None,
            weight_unit: None,
            height: None,
        }
    }
}

impl UpdateProfileParams {
    /// Changes that change nothing: every field unset.
    pub fn new() -> (r: Self)
        ensures
            r.full_name is None,
            r.display_name is None,
            r.date_of_birth is None,
            r.gender is None,
            r.height_unit is None,
            r.weight_unit is None,
            r.height is None,
    {
        Self::default()
    }

    /// Sets the full name.
    pub fn with_full_name(self, full_name: &str) -> (r: Self)
        ensures
            r.full_name.deep_view() == Some(full_name@),
            r.display_name == self.display_name,
            r.date_of_birth == self.date_of_birth,
            r.gender == self.gender,
            r.height_unit == self.height_unit,
            r.weight_unit == self.weight_unit,
            r.height == self.height,
    {
        UpdateProfileParams { full_name: Some(String::from_str(full_name)), ..self }
    }

    /// Sets the display name.
    pub fn with_display_name(self, display_name: &str) -> (r: Self)
        ensures
            r.display_name.deep_view() == Some(display_name@),
            r.full_name == self.full_name,
            r.date_of_birth == self.date_of_birth,
            r.gender == self.gender,
            r.height_unit == self.height_unit,
            r.weight_unit == self.weight_unit,
            r.height == self.height,
    {
        UpdateProfileParams { display_name: Some(String::from_str(display_name)), ..self }
    }

    /// Sets the date of birth.
    pub fn with_date_of_birth(self, date_of_birth: &str) -> (r: Self)
        ensures
            r.date_of_birth.deep_view() == Some(date_of_birth@),
            r.full_name == self.full_name,
            r.display_name == self.display_name,
            r.gender == self.gender,
            r.height_unit == self.height_unit,
            r.weight_unit == self.weight_unit,
            r.height == self.height,
    {
        UpdateProfileParams { date_of_birth: Some(String::from_str(date_of_birth)), ..self }
    }

    /// Sets the gender.
    pub fn with_gender(self, gender: Gender) -> (r: Self)
        ensures
            r.gender == Some(gender),
            r.full_name == self.full_name,
            r.display_name == self.display_name,
            r.date_of_birth == self.date_of_birth,
            r.height_unit == self.height_unit,
            r.weight_unit == self.weight_unit,
            r.height == self.height,
    {
        UpdateProfileParams { gender: Some(gender), ..self }
    }

    /// Sets the height unit.
    pub fn with_height_unit(self, height_unit: HeightUnit) -> (r: Self)
        ensures
            r.height_unit == Some(height_unit),
            r.full_name == self.full_name,
            r.display_name == self.display_name,
            r.date_of_birth == self.date_of_birth,
            r.gender == self.gender,
            r.weight_unit == self.weight_unit,
            r.height == self.height,
    {
        UpdateProfileParams { height_unit: Some(height_unit), ..self }
    }

    /// Sets the weight unit.
    pub fn with_weight_unit(self, weight_unit: WeightUnit) -> (r: Self)
        ensures
            r.weight_unit == Some(weight_unit),
            r.full_name == self.full_name,
            r.display_name == self.display_name,
            r.date_of_birth == self.date_of_birth,
            r.gender == self.gender,
            r.height_unit == self.height_unit,
            r.height == self.height,
    {
        UpdateProfileParams { weight_unit: Some(weight_unit), ..self }
    }

    /// Sets the height.
    pub fn with_height(self, height: &str) -> (r: Self)
        ensures
            r.height.deep_view() == Some(height@),
            r.full_name == self.full_name,
            r.display_name == self.display_name,
            r.date_of_birth == self.date_of_birth,
            r.gender == self.gender,
            r.height_unit == self.height_unit,
            r.weight_unit == self.weight_unit,
    {
        UpdateProfileParams { height: Some(String::from_str(height)), ..self }
    }
}

/// One member of a JSON object: `"<name>":<value>`.
pub open spec fn member_text(name: Seq<char>, value: Seq<char>) -> Seq<char> {
    "\""@ + name + "\":"@ + value
}

/// The member for `name` when there is a value, none otherwise.
pub open spec fn optional_member(name: Seq<char>, value: Option<Seq<char>>) -> Seq<Seq<char>> {
    match value {
        Some(v) => seq![member_text(name, v)],
        None => Seq::empty(),
    }
}

/// The JSON string value of an optional text.
pub open spec fn quoted(o: Option<String>) -> Option<Seq<char>> {
    match o {
        Some(s) => Some(json_string(s@)),
        None => None,
    }
}

/// The members of a JSON object, separated by commas.
pub open spec fn join_members(m: Seq<Seq<char>>) -> Seq<char>
    decreases m.len(),
{
    if m.len() == 0 {
        Seq::empty()
    } else if m.len() == 1 {
        m[0]
    } else {
        join_members(m.drop_last()) + ","@ + m.last()
    }
}

/// A JSON object of the given members.
pub open spec fn json_object(m: Seq<Seq<char>>) -> Seq<char> {
    "{"@ + join_members(m) + "}"@
}

/// The members that encode `p`, in field order, with every unset field left
/// out.
pub open spec fn profile_members(p: UpdateProfileParams) -> Seq<Seq<char>> {
    optional_member("fullName"@, quoted(p.full_name)) + optional_member(
        "displayName"@,
        quoted(p.display_name),
    ) + optional_member("dateOfBirth"@, quoted(p.date_of_birth)) + optional_member(
        "gender"@,
        match p.gender {
            Some(g) => Some(gender_json(g)),
            None => None,
        },
    ) + optional_member(
        "heightUnit"@,
        match p.height_unit {
            Some(u) => Some(height_unit_json(u)),
            None => None,
        },
    ) + optional_member(
        "weightUnit"@,
        match p.weight_unit {
            Some(u) => Some(weight_unit_json(u)),
            None => None,
        },
    ) + optional_member("height"@, quoted(p.height))
}

/// The JSON request body that encodes `p`.
pub open spec fn profile_json(p: UpdateProfileParams) -> Seq<char> {
    json_object(profile_members(p))
}

proof fn lemma_join_push(m: Seq<Seq<char>>, x: Seq<char>)
    ensures
        join_members(m.push(x)) == if m.len() == 0 {
            x
        } else {
            join_members(m) + ","@ + x
        },
{
    assert(m.push(x).drop_last() =~= m);
}

/// Appends the member for `name` to an object under construction, when
/// there is a value.
fn push_optional_member(
    out: &mut String,
    members: Ghost<Seq<Seq<char>>>,
    first: bool,
    name: &str,
    value: Option<String>,
)
    requires
        old(out)@ == "{"@ + join_members(members@),
        first == (members@.len() == 0),
    ensures
        final(out)@ == "{"@ + join_members(members@ + optional_member(name@, value.deep_view())),
{
    match value {
        Some(v) => {
            proof {
                lemma_join_push(members@, member_text(name@, v@));
                assert(members@ + optional_member(name@, value.deep_view()) =~= members@.push(
                    member_text(name@, v@),
                ));
            }
            if !first {
                out.append(",");
            }
            out.append("\"");
            out.append(name);
            out.append("\":");
            out.append(v.as_str());
        },
        None => {
            assert(members@ + optional_member(name@, value.deep_view()) =~= members@);
        },
    }
}

/// The JSON string values of an optional text.
fn quote_optional(o: &Option<String>) -> (r: Option<String>)
    ensures
        r.deep_view() == quoted(*o),
{
    match o {
        Some(s) => Some(quote(s.as_str()).unwrap()),
        None => None,
    }
}

/// The JSON value of an optional gender.
fn gender_value(g: Option<Gender>) -> (r: Option<String>)
    ensures
        r.deep_view() == match g {
            Some(g) => Some(gender_json(g)),
            None => None::<Seq<char>>,
        },
{
    match g {
        Some(Gender::Male) => Some(String::from_str("\"MALE\"")),
        Some(Gender::Female) => Some(String::from_str("\"FEMALE\"")),
        Some(Gender::Na) => Some(String::from_str("\"NA\"")),
        None => None,
    }
}

/// The JSON value of an optional height unit.
fn height_unit_value(u: Option<HeightUnit>) -> (r: Option<String>)
    ensures
        r.deep_view() == match u {
            Some(u) => Some(height_unit_json(u)),
            None => None::<Seq<char>>,
        },
{
    match u {
        Some(HeightUnit::Metric) => Some(String::from_str("\"METRIC\"")),
        Some(HeightUnit::Us) => Some(String::from_str("\"US\"")),
        None => None,
    }
}

/// The JSON value of an optional weight unit.
fn weight_unit_value(u: Option<WeightUnit>) -> (r: Option<String>)
    ensures
        r.deep_view() == match u {
            Some(u) => Some(weight_unit_json(u)),
            None => None::<Seq<char>>,
        },
{
    match u {
        Some(WeightUnit::Metric) => Some(String::from_str("\"METRIC\"")),
        Some(WeightUnit::Us) => Some(String::from_str("\"US\"")),
        None => None,
    }
}

impl UpdateProfileParams {
    /// The JSON request body: an object with a member for each field that is
    /// set, under the API's name for it, in field order.
    pub fn to_json(&self) -> (r: String)
        ensures
            r@ == profile_json(*self),
    {
        let ghost p = *self;
        let mut out = String::from_str("{");
        let ghost m = Seq::<Seq<char>>::empty();
        assert(out@ =~= "{"@ + join_members(m));
        let mut first = true;

        let v = quote_optional(&self.full_name);
        let set = v.is_some();
        push_optional_member(&mut out, Ghost(m), first, "fullName", v);
        first = first && !set;
        let ghost m = m + optional_member("fullName"@, quoted(p.full_name));

        let v = quote_optional(&self.display_name);
        let set = v.is_some();
        push_optional_member(&mut out, Ghost(m), first, "displayName", v);
        first = first && !set;
        let ghost m = m + optional_member("displayName"@, quoted(p.display_name));

        let v = quote_optional(&self.date_of_birth);
        let set = v.is_some();
        push_optional_member(&mut out, Ghost(m), first, "dateOfBirth", v);
        first = first && !set;
        let ghost m = m + optional_member("dateOfBirth"@, quoted(p.date_of_birth));

        let v = gender_value(self.gender);
        let ghost gv = v.deep_view();
        let set = v.is_some();
        push_optional_member(&mut out, Ghost(m), first, "gender", v);
        first = first && !set;
        let ghost m = m + optional_member("gender"@, gv);

        let v = height_unit_value(self.height_unit);
        let ghost hv = v.deep_view();
        let set = v.is_some();
        push_optional_member(&mut out, Ghost(m), first, "heightUnit", v);
        first = first && !set;
        let ghost m = m + optional_member("heightUnit"@, hv);

        let v = weight_unit_value(self.weight_unit);
        let ghost wv = v.deep_view();
        let set = v.is_some();
        push_optional_member(&mut out, Ghost(m), first, "weightUnit", v);
        first = first && !set;
        let ghost m = m + optional_member("weightUnit"@, wv);

        let v = quote_optional(&self.height);
        push_optional_member(&mut out, Ghost(m), first, "height", v);
        let ghost m = m + optional_member("height"@, quoted(p.height));

        assert(m =~= profile_members(p));
        out.append("}");
        out
    }
}

/// Encoding changes that set the display name alone gives an object with
/// the display name member alone, every other field left out.
pub proof fn lemma_display_name_only(p: UpdateProfileParams)
    requires
        p.display_name is Some,
        p.full_name is None,
        p.date_of_birth is None,
        p.gender is None,
        p.height_unit is None,
        p.weight_unit is None,
        p.height is None,
    ensures
        profile_members(p) == seq![member_text("displayName"@, json_string(p.display_name->0@))],
        profile_json(p) == "{\"displayName\":"@ + json_string(p.display_name->0@) + "}"@,
{
    let v = json_string(p.display_name->0@);
    assert(profile_members(p) =~= seq![member_text("displayName"@, v)]);
    reveal_strlit("{");
    reveal_strlit("\"");
    reveal_strlit("displayName");
    reveal_strlit("\":");
    reveal_strlit("{\"displayName\":");
    assert(profile_json(p) =~= "{\"displayName\":"@ + v + "}"@);
}

} // verus!
