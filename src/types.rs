//! The records that the service hands out, and how each is decoded from JSON.

use crate::errors::NuclinoError;
use crate::ids::Uuid;
use crate::json::{
    array_member, as_bool, as_opt_index, as_opt_text, as_text, as_uuid, as_uuid_seq, bool_member,
    get, get_member, json_error, opt_index_member, opt_text_member, seq_decodable, seq_decodes,
    text_map_decodable, text_map_decodes, text_map_member, text_member, uuid_list_member,
    uuid_member, FromJson, JsonValue,
};
use vstd::prelude::*;
use vstd::string::*;

verus! {

/// The text of an optional string.
pub open spec fn opt_view(o: Option<String>) -> Option<Seq<char>> {
    match o {
        Some(s) => Some(s@),
        None => None,
    }
}

/// The values of a list of UUIDs.
pub open spec fn uuid_values(l: Seq<Uuid>) -> Seq<u128> {
    l.map_values(|u: Uuid| u@)
}

/// Hands out a reference to an optional string.
fn opt_ref(o: &Option<String>) -> (r: Option<&String>)
    ensures
        r matches Some(s) ==> *o == Some(*s),
        r is None <==> o is None,
{
    match o {
        Some(s) => Some(s),
        None => None,
    }
}

/// An id-only record, returned by deletions.
#[derive(Debug, Clone)]
pub struct IdOnly {
    pub id: Uuid,
}

impl IdOnly {
    /// The id of this record.
    pub fn id(&self) -> (r: &Uuid)
        ensures
            *r == self.id,
    {
        &self.id
    }
}

impl FromJson for IdOnly {
    open spec fn json_decodable(v: JsonValue) -> bool {
        as_uuid(get(v, "id"@)) is Some
    }

    open spec fn json_decodes(v: JsonValue, r: IdOnly) -> bool {
        as_uuid(get(v, "id"@)) == Some(r.id@)
    }

    fn from_json(v: &JsonValue) -> (r: Result<IdOnly, NuclinoError>) {
        match uuid_member(v, "id") {
            Some(id) => Ok(IdOnly { id }),
            None => Err(json_error("invalid field: id")),
        }
    }
}

/// A user of the service.
#[derive(Debug, Clone)]
pub struct User {
    pub id: Uuid,
    pub first_name: String,
    pub last_name: String,
    pub email: String,
    pub avatar_url: Option<String>,
}

impl User {
    /// The id of this user.
    pub fn id(&self) -> (r: &Uuid)
        ensures
            *r == self.id,
    {
        &self.id
    }

    /// This user's first name.
    pub fn first_name(&self) -> (r: &str)
        ensures
            r@ == self.first_name@,
    {
        self.first_name.as_str()
    }

    /// This user's last name.
    pub fn last_name(&self) -> (r: &str)
        ensures
            r@ == self.last_name@,
    {
        self.last_name.as_str()
    }

    /// This user's email address.
    pub fn email(&self) -> (r: &str)
        ensures
            r@ == self.email@,
    {
        self.email.as_str()
    }

    /// A URL of this user's avatar.
    pub fn avatar_url(&self) -> (r: Option<&String>)
        ensures
            r matches Some(s) ==> self.avatar_url == Some(*s),
            r is None <==> self.avatar_url is None,
    {
        opt_ref(&self.avatar_url)
    }
}

impl FromJson for User {
    open spec fn json_decodable(v: JsonValue) -> bool {
        &&& as_uuid(get(v, "id"@)) is Some
        &&& as_text(get(v, "firstName"@)) is Some
        &&& as_text(get(v, "lastName"@)) is Some
        &&& as_text(get(v, "email"@)) is Some
        &&& as_opt_text(get(v, "avatarUrl"@)) is Some
    }

    open spec fn json_decodes(v: JsonValue, r: User) -> bool {
        &&& as_uuid(get(v, "id"@)) == Some(r.id@)
        &&& as_text(get(v, "firstName"@)) == Some(r.first_name@)
        &&& as_text(get(v, "lastName"@)) == Some(r.last_name@)
        &&& as_text(get(v, "email"@)) == Some(r.email@)
        &&& as_opt_text(get(v, "avatarUrl"@)) == Some(opt_view(r.avatar_url))
    }

    fn from_json(v: &JsonValue) -> (r: Result<User, NuclinoError>) {
        let id = match uuid_member(v, "id") {
            Some(x) => x,
            None => {
                return Err(json_error("invalid field: id"));
            },
        };
        let first_name = match text_member(v, "firstName") {
            Some(x) => x,
            None => {
                return Err(json_error("invalid field: firstName"));
            },
        };
        let last_name = match text_member(v, "lastName") {
            Some(x) => x,
            None => {
                return Err(json_error("invalid field: lastName"));
            },
        };
        let email = match text_member(v, "email") {
            Some(x) => x,
            None => {
                return Err(json_error("invalid field: email"));
            },
        };
        let avatar_url = match opt_text_member(v, "avatarUrl") {
            Some(x) => x,
            None => {
                return Err(json_error("invalid field: avatarUrl"));
            },
        };
        Ok(User { id, first_name, last_name, email, avatar_url })
    }
}

/// A team of the service.
#[derive(Debug, Clone)]
pub struct Team {
    pub id: Uuid,
    pub url: String,
    pub name: String,
    pub created_at: String,
    pub created_user_id: Uuid,
}

impl Team {
    /// The id of this team.
    pub fn id(&self) -> (r: &Uuid)
        ensures
            *r == self.id,
    {
        &self.id
    }

    /// Creation timestamp as an ISO-8601 string.
    pub fn created(&self) -> (r: &str)
        ensures
            r@ == self.created_at@,
    {
        self.created_at.as_str()
    }

    /// The id of the user who created this team.
    pub fn created_by(&self) -> (r: &Uuid)
        ensures
            *r == self.created_user_id,
    {
        &self.created_user_id
    }

    /// This team's URL.
    pub fn url(&self) -> (r: &str)
        ensures
            r@ == self.url@,
    {
        self.url.as_str()
    }

    /// This team's name.
    pub fn name(&self) -> (r: &str)
        ensures
            r@ == self.name@,
    {
        self.name.as_str()
    }
}

impl FromJson for Team {
    open spec fn json_decodable(v: JsonValue) -> bool {
        &&& as_uuid(get(v, "id"@)) is Some
        &&& as_text(get(v, "url"@)) is Some
        &&& as_text(get(v, "name"@)) is Some
        &&& as_text(get(v, "createdAt"@)) is Some
        &&& as_uuid(get(v, "createdUserId"@)) is Some
    }

    open spec fn json_decodes(v: JsonValue, r: Team) -> bool {
        &&& as_uuid(get(v, "id"@)) == Some(r.id@)
        &&& as_text(get(v, "url"@)) == Some(r.url@)
        &&& as_text(get(v, "name"@)) == Some(r.name@)
        &&& as_text(get(v, "createdAt"@)) == Some(r.created_at@)
        &&& as_uuid(get(v, "createdUserId"@)) == Some(r.created_user_id@)
    }

    fn from_json(v: &JsonValue) -> (r: Result<Team, NuclinoError>) {
        let id = match uuid_member(v, "id") {
            Some(x) => x,
            None => {
                return Err(json_error("invalid field: id"));
            },
        };
        let url = match text_member(v, "url") {
            Some(x) => x,
            None => {
                return Err(json_error("invalid field: url"));
            },
        };
        let name = match text_member(v, "name") {
            Some(x) => x,
            None => {
                return Err(json_error("invalid field: name"));
            },
        };
        let created_at = match text_member(v, "createdAt") {
            Some(x) => x,
            None => {
                return Err(json_error("invalid field: createdAt"));
            },
        };
        let created_user_id = match uuid_member(v, "createdUserId") {
            Some(x) => x,
            None => {
                return Err(json_error("invalid field: createdUserId"));
            },
        };
        Ok(Team { id, url, name, created_at, created_user_id })
    }
}

/// A workspace: a top-level container of pages and field definitions.
#[derive(Debug, Clone)]
pub struct Workspace {
    pub id: Uuid,
    pub team_id: Uuid,
    pub name: String,
    pub created_at: String,
    pub created_user_id: Uuid,
    pub fields: Vec<Field>,
    pub child_ids: Vec<Uuid>,
}

impl Workspace {
    /// The id of this workspace.
    pub fn id(&self) -> (r: &Uuid)
        ensures
            *r == self.id,
    {
        &self.id
    }

    /// Creation timestamp as an ISO-8601 string.
    pub fn created(&self) -> (r: &str)
        ensures
            r@ == self.created_at@,
    {
        self.created_at.as_str()
    }

    /// The id of the user who created this workspace.
    pub fn created_by(&self) -> (r: &Uuid)
        ensures
            *r == self.created_user_id,
    {
        &self.created_user_id
    }

    /// The id of the owning team.
    pub fn team_id(&self) -> (r: &Uuid)
        ensures
            *r == self.team_id,
    {
        &self.team_id
    }

    /// This workspace's name.
    pub fn name(&self) -> (r: &str)
        ensures
            r@ == self.name@,
    {
        self.name.as_str()
    }

    /// The definitions of the fields that pages of this workspace carry.
    pub fn fields(&self) -> (r: &[Field])
        ensures
            r@ == self.fields@,
    {
        self.fields.as_slice()
    }

    /// The ids of the pages at the top level of this workspace, in order.
    pub fn children(&self) -> (r: &[Uuid])
        ensures
            r@ == self.child_ids@,
    {
        self.child_ids.as_slice()
    }
}

impl FromJson for Workspace {
    open spec fn json_decodable(v: JsonValue) -> bool {
        &&& as_uuid(get(v, "id"@)) is Some
        &&& as_uuid(get(v, "teamId"@)) is Some
        &&& as_text(get(v, "name"@)) is Some
        &&& as_text(get(v, "createdAt"@)) is Some
        &&& as_uuid(get(v, "createdUserId"@)) is Some
        &&& seq_decodable::<Field>(get(v, "fields"@))
        &&& as_uuid_seq(get(v, "childIds"@)) is Some
    }

    open spec fn json_decodes(v: JsonValue, r: Workspace) -> bool {
        &&& as_uuid(get(v, "id"@)) == Some(r.id@)
        &&& as_uuid(get(v, "teamId"@)) == Some(r.team_id@)
        &&& as_text(get(v, "name"@)) == Some(r.name@)
        &&& as_text(get(v, "createdAt"@)) == Some(r.created_at@)
        &&& as_uuid(get(v, "createdUserId"@)) == Some(r.created_user_id@)
        &&& seq_decodes::<Field>(get(v, "fields"@), r.fields@)
        &&& as_uuid_seq(get(v, "childIds"@)) == Some(uuid_values(r.child_ids@))
    }

    fn from_json(v: &JsonValue) -> (r: Result<Workspace, NuclinoError>) {
        let id = match uuid_member(v, "id") {
            Some(x) => x,
            None => {
                return Err(json_error("invalid field: id"));
            },
        };
        let team_id = match uuid_member(v, "teamId") {
            Some(x) => x,
            None => {
                return Err(json_error("invalid field: teamId"));
            },
        };
        let name = match text_member(v, "name") {
            Some(x) => x,
            None => {
                return Err(json_error("invalid field: name"));
            },
        };
        let created_at = match text_member(v, "createdAt") {
            Some(x) => x,
            None => {
                return Err(json_error("invalid field: createdAt"));
            },
        };
        let created_user_id = match uuid_member(v, "createdUserId") {
            Some(x) => x,
            None => {
                return Err(json_error("invalid field: createdUserId"));
            },
        };
        let fields = match array_member::<Field>(v, "fields") {
            Ok(x) => x,
            Err(e) => {
                return Err(e);
            },
        };
        let child_ids = match uuid_list_member(v, "childIds") {
            Some(x) => x,
            None => {
                return Err(json_error("invalid field: childIds"));
            },
        };
        Ok(Workspace { id, team_id, name, created_at, created_user_id, fields, child_ids })
    }
}

/// The definition of a field: a named, typed attribute that the pages of a
/// workspace carry.
#[derive(Debug, Clone)]
pub struct Field {
    pub id: Uuid,
    pub name: String,
    pub config: Config,
    pub field_type: FieldType,
}

impl Field {
    /// The id of this field.
    pub fn id(&self) -> (r: &Uuid)
        ensures
            *r == self.id,
    {
        &self.id
    }

    /// The name of this field.
    pub fn name(&self) -> (r: &str)
        ensures
            r@ == self.name@,
    {
        self.name.as_str()
    }

    /// What kind of value this field holds.
    pub fn field_type(&self) -> (r: &FieldType)
        ensures
            *r == self.field_type,
    {
        &self.field_type
    }

    /// How this field is configured.
    pub fn configuration(&self) -> (r: &Config)
        ensures
            *r == self.config,
    {
        &self.config
    }
}

/// The configuration of a field, in whichever of the shapes it has.
#[derive(Debug, Clone)]
pub enum Config {
    /// No configuration.
    Absent,
    /// Configuration of number fields.
    Number { fraction_digits: Option<usize> },
    /// Configuration of currency fields.
    Currency { currency: String, fraction_digits: Option<usize> },
    /// The options of a select or multi-select field.
    Selections { options: Vec<Selection> },
    /// Configuration of timestamp fields: whether a time of day is shown.
    Timestamp { include_time: bool },
}

/// A config object of the currency shape: a currency name, and a fraction digit
/// count if any.
pub open spec fn currency_shape(v: JsonValue) -> bool {
    as_text(get(v, "currency"@)) is Some && as_opt_index(get(v, "fractionDigits"@)) is Some
}

/// A config object of the selections shape: a list of options.
pub open spec fn selections_shape(v: JsonValue) -> bool {
    seq_decodable::<Selection>(get(v, "options"@))
}

/// A config object of the timestamp shape: an include-time flag.
pub open spec fn timestamp_shape(v: JsonValue) -> bool {
    as_bool(get(v, "includeTime"@)) is Some
}

/// A config object of the number shape: a fraction digit count if any.
pub open spec fn number_shape(v: JsonValue) -> bool {
    as_opt_index(get(v, "fractionDigits"@)) is Some
}

impl FromJson for Config {
    /// `null` is no configuration; an object is read as the first shape it fits, of
    /// currency, selections, timestamp and number, whatever the field's type says.
    open spec fn json_decodable(v: JsonValue) -> bool {
        match v {
            JsonValue::Null => true,
            JsonValue::Object(_) => currency_shape(v) || selections_shape(v) || timestamp_shape(v)
                || number_shape(v),
            _ => false,
        }
    }

    open spec fn json_decodes(v: JsonValue, r: Config) -> bool {
        match v {
            JsonValue::Null => r is Absent,
            JsonValue::Object(_) => if currency_shape(v) {
                r matches Config::Currency { currency, fraction_digits } && as_text(
                    get(v, "currency"@),
                ) == Some(currency@) && as_opt_index(get(v, "fractionDigits"@)) == Some(
                    fraction_digits,
                )
            } else if selections_shape(v) {
                r matches Config::Selections { options } && seq_decodes::<Selection>(
                    get(v, "options"@),
                    options@,
                )
            } else if timestamp_shape(v) {
                r matches Config::Timestamp { include_time } && as_bool(get(v, "includeTime"@))
                    == Some(include_time)
            } else {
                r matches Config::Number { fraction_digits } && as_opt_index(
                    get(v, "fractionDigits"@),
                ) == Some(fraction_digits)
            },
            _ => false,
        }
    }

    fn from_json(v: &JsonValue) -> (r: Result<Config, NuclinoError>) {
        match v {
            JsonValue::Null => Ok(Config::Absent),
            JsonValue::Object(_) => {
                let digits = opt_index_member(v, "fractionDigits");
                if let Some(currency) = text_member(v, "currency") {
                    if let Some(fraction_digits) = digits {
                        return Ok(Config::Currency { currency, fraction_digits });
                    }
                }
                if let Ok(options) = array_member::<Selection>(v, "options") {
                    return Ok(Config::Selections { options });
                }
                if let Some(include_time) = bool_member(v, "includeTime") {
                    return Ok(Config::Timestamp { include_time });
                }
                match digits {
                    Some(fraction_digits) => Ok(Config::Number { fraction_digits }),
                    None => Err(json_error("config object of no known shape")),
                }
            },
            _ => Err(json_error("config is neither null nor an object")),
        }
    }
}

/// One option of a select or multi-select field.
#[derive(Debug, Clone)]
pub struct Selection {
    /// the id of this option
    pub id: Uuid,
    /// the text shown for this option
    pub name: String,
}

impl FromJson for Selection {
    open spec fn json_decodable(v: JsonValue) -> bool {
        as_uuid(get(v, "id"@)) is Some && as_text(get(v, "name"@)) is Some
    }

    open spec fn json_decodes(v: JsonValue, r: Selection) -> bool {
        as_uuid(get(v, "id"@)) == Some(r.id@) && as_text(get(v, "name"@)) == Some(r.name@)
    }

    fn from_json(v: &JsonValue) -> (r: Result<Selection, NuclinoError>) {
        let id = match uuid_member(v, "id") {
            Some(x) => x,
            None => {
                return Err(json_error("invalid field: id"));
            },
        };
        let name = match text_member(v, "name") {
            Some(x) => x,
            None => {
                return Err(json_error("invalid field: name"));
            },
        };
        Ok(Selection { id, name })
    }
}

/// The kinds of value a field holds.
#[derive(Debug, Clone, Copy, PartialEq, Eq, Structural)]
pub enum FieldType {
    /// A date.
    Date,
    /// Plain text.
    Text,
    /// A number.
    Number,
    /// An amount of a currency.
    Currency,
    /// One option out of a list.
    Select,
    /// Several options out of a list.
    MultiSelect,
    /// Several collaborators.
    MultiCollaborator,
    /// Who created the page.
    CreatedBy,
    /// Who last modified the page.
    LastUpdatedBy,
    /// When the page was created.
    CreatedAt,
    /// When the page was last modified.
    UpdatedAt,
}

/// The field type that a type name of the wire stands for.
pub open spec fn field_type_named(s: Seq<char>) -> Option<FieldType> {
    if s == "date"@ {
        Some(FieldType::Date)
    } else if s == "text"@ {
        Some(FieldType::Text)
    } else if s == "number"@ {
        Some(FieldType::Number)
    } else if s == "currency"@ {
        Some(FieldType::Currency)
    } else if s == "select"@ {
        Some(FieldType::Select)
    } else if s == "multiSelect"@ {
        Some(FieldType::MultiSelect)
    } else if s == "multiCollaborator"@ {
        Some(FieldType::MultiCollaborator)
    } else if s == "createdBy"@ {
        Some(FieldType::CreatedBy)
    } else if s == "lastUpdatedBy"@ {
        Some(FieldType::LastUpdatedBy)
    } else if s == "createdAt"@ {
        Some(FieldType::CreatedAt)
    } else if s == "updatedAt"@ {
        Some(FieldType::UpdatedAt)
    } else {
        None
    }
}

impl FieldType {
    /// Whether fields of this type carry a configuration: numbers, currencies,
    /// selects, multi-selects and the two timestamps.
    pub fn has_config(&self) -> (r: bool)
        ensures
            r <==> (*self is Number || *self is Currency || *self is Select || *self is MultiSelect
                || *self is CreatedAt || *self is UpdatedAt),
    {
        match self {
            FieldType::Number | FieldType::Currency | FieldType::Select | FieldType::MultiSelect
            | FieldType::CreatedAt | FieldType::UpdatedAt => true,
            _ => false,
        }
    }

    /// The field type that a type name of the wire stands for.
    pub fn from_name(s: &String) -> (r: Option<FieldType>)
        ensures
            r == field_type_named(s@),
    {
        if *s == String::from_str("date") {
            Some(FieldType::Date)
        } else if *s == String::from_str("text") {
            Some(FieldType::Text)
        } else if *s == String::from_str("number") {
            Some(FieldType::Number)
        } else if *s == String::from_str("currency") {
            Some(FieldType::Currency)
        } else if *s == String::from_str("select") {
            Some(FieldType::Select)
        } else if *s == String::from_str("multiSelect") {
            Some(FieldType::MultiSelect)
        } else if *s == String::from_str("multiCollaborator") {
            Some(FieldType::MultiCollaborator)
        } else if *s == String::from_str("createdBy") {
            Some(FieldType::CreatedBy)
        } else if *s == String::from_str("lastUpdatedBy") {
            Some(FieldType::LastUpdatedBy)
        } else if *s == String::from_str("createdAt") {
            Some(FieldType::CreatedAt)
        } else if *s == String::from_str("updatedAt") {
            Some(FieldType::UpdatedAt)
        } else {
            None
        }
    }
}

impl FromJson for Field {
    /// A missing `config` member means no configuration.
    open spec fn json_decodable(v: JsonValue) -> bool {
        &&& as_uuid(get(v, "id"@)) is Some
        &&& as_text(get(v, "name"@)) is Some
        &&& as_text(get(v, "type"@)) matches Some(t) && field_type_named(t) is Some
        &&& get(v, "config"@) matches Some(c) ==> Config::json_decodable(c)
    }

    open spec fn json_decodes(v: JsonValue, r: Field) -> bool {
        &&& as_uuid(get(v, "id"@)) == Some(r.id@)
        &&& as_text(get(v, "name"@)) == Some(r.name@)
        &&& as_text(get(v, "type"@)) matches Some(t) && field_type_named(t) == Some(r.field_type)
        &&& match get(v, "config"@) {
            Some(c) => Config::json_decodes(c, r.config),
            None => r.config is Absent,
        }
    }

    fn from_json(v: &JsonValue) -> (r: Result<Field, NuclinoError>) {
        let id = match uuid_member(v, "id") {
            Some(x) => x,
            None => {
                return Err(json_error("invalid field: id"));
            },
        };
        let name = match text_member(v, "name") {
            Some(x) => x,
            None => {
                return Err(json_error("invalid field: name"));
            },
        };
        let field_type = match text_member(v, "type") {
            Some(t) => match FieldType::from_name(&t) {
                Some(x) => x,
                None => {
                    return Err(json_error("unknown field type"));
                },
            },
            None => {
                return Err(json_error("invalid field: type"));
            },
        };
        let config = match get_member(v, "config") {
            Some(c) => match Config::from_json(c) {
                Ok(x) => x,
                Err(e) => {
                    return Err(e);
                },
            },
            None => Config::Absent,
        };
        Ok(Field { id, name, config, field_type })
    }
}

/// A page of the wiki: an item, which has Markdown content, or a collection,
/// which lists other pages.
#[derive(Debug, Clone)]
pub enum Page {
    /// A regular wiki page with Markdown content.
    Item(Item),
    /// A page that only lists other pages.
    Collection(Collection),
}

/// The id of a page, whichever its variant.
pub open spec fn page_id(p: Page) -> Uuid {
    match p {
        Page::Item(v) => v.id,
        Page::Collection(v) => v.id,
    }
}

/// The title of a page, whichever its variant.
pub open spec fn page_title(p: Page) -> Seq<char> {
    match p {
        Page::Item(v) => v.title@,
        Page::Collection(v) => v.title@,
    }
}

impl Page {
    /// The id of this page.
    pub fn id(&self) -> (r: &Uuid)
        ensures
            *r == page_id(*self),
    {
        match self {
            Page::Item(v) => v.id(),
            Page::Collection(v) => v.id(),
        }
    }

    /// The id of the workspace this page belongs to.
    pub fn workspace(&self) -> (r: &Uuid)
        ensures
            *r == (match self {
                Page::Item(v) => v.workspace_id,
                Page::Collection(v) => v.workspace_id,
            }),
    {
        match self {
            Page::Item(v) => v.workspace(),
            Page::Collection(v) => v.workspace(),
        }
    }

    /// This page's URL.
    pub fn url(&self) -> (r: &str)
        ensures
            r@ == (match self {
                Page::Item(v) => v.url@,
                Page::Collection(v) => v.url@,
            }),
    {
        match self {
            Page::Item(v) => v.url(),
            Page::Collection(v) => v.url(),
        }
    }

    /// This page's title.
    pub fn title(&self) -> (r: &str)
        ensures
            r@ == page_title(*self),
    {
        match self {
            Page::Item(v) => v.title(),
            Page::Collection(v) => v.title(),
        }
    }

    /// Creation timestamp as an ISO-8601 string.
    pub fn created(&self) -> (r: &str)
        ensures
            r@ == (match self {
                Page::Item(v) => v.created_at@,
                Page::Collection(v) => v.created_at@,
            }),
    {
        match self {
            Page::Item(v) => v.created(),
            Page::Collection(v) => v.created(),
        }
    }

    /// The id of the user who created this page.
    pub fn created_by(&self) -> (r: &Uuid)
        ensures
            *r == (match self {
                Page::Item(v) => v.created_user_id,
                Page::Collection(v) => v.created_user_id,
            }),
    {
        match self {
            Page::Item(v) => v.created_by(),
            Page::Collection(v) => v.created_by(),
        }
    }

    /// Last modification timestamp as an ISO-8601 string.
    pub fn modified(&self) -> (r: &str)
        ensures
            r@ == (match self {
                Page::Item(v) => v.last_updated_at@,
                Page::Collection(v) => v.last_updated_at@,
            }),
    {
        match self {
            Page::Item(v) => v.modified(),
            Page::Collection(v) => v.modified(),
        }
    }

    /// The id of the user who last modified this page.
    pub fn modified_by(&self) -> (r: &Uuid)
        ensures
            *r == (match self {
                Page::Item(v) => v.last_updated_user_id,
                Page::Collection(v) => v.last_updated_user_id,
            }),
    {
        match self {
            Page::Item(v) => v.modified_by(),
            Page::Collection(v) => v.modified_by(),
        }
    }
}

impl FromJson for Page {
    /// The `object` member tells the variant: `item` or `collection`.
    open spec fn json_decodable(v: JsonValue) -> bool {
        if as_text(get(v, "object"@)) == Some("item"@) {
            Item::json_decodable(v)
        } else if as_text(get(v, "object"@)) == Some("collection"@) {
            Collection::json_decodable(v)
        } else {
            false
        }
    }

    open spec fn json_decodes(v: JsonValue, r: Page) -> bool {
        if as_text(get(v, "object"@)) == Some("item"@) {
            r matches Page::Item(x) && Item::json_decodes(v, x)
        } else if as_text(get(v, "object"@)) == Some("collection"@) {
            r matches Page::Collection(x) && Collection::json_decodes(v, x)
        } else {
            false
        }
    }

    fn from_json(v: &JsonValue) -> (r: Result<Page, NuclinoError>) {
        let tag = match text_member(v, "object") {
            Some(t) => t,
            None => {
                return Err(json_error("invalid field: object"));
            },
        };
        if tag == String::from_str("item") {
            match Item::from_json(v) {
                Ok(x) => Ok(Page::Item(x)),
                Err(e) => Err(e),
            }
        } else if tag == String::from_str("collection") {
            match Collection::from_json(v) {
                Ok(x) => Ok(Page::Collection(x)),
                Err(e) => Err(e),
            }
        } else {
            Err(json_error("unknown page kind"))
        }
    }
}

/// A page that lists other pages and has no content of its own.
#[derive(Debug, Clone)]
pub struct Collection {
    pub id: Uuid,
    pub workspace_id: Uuid,
    pub url: String,
    pub title: String,
    pub created_at: String,
    pub created_user_id: Uuid,
    pub last_updated_at: String,
    pub last_updated_user_id: Uuid,
    pub child_ids: Vec<Uuid>,
}

impl Collection {
    /// The id of this collection.
    pub fn id(&self) -> (r: &Uuid)
        ensures
            *r == self.id,
    {
        &self.id
    }

    /// The id of the workspace this collection belongs to.
    pub fn workspace(&self) -> (r: &Uuid)
        ensures
            *r == self.workspace_id,
    {
        &self.workspace_id
    }

    /// This collection's URL.
    pub fn url(&self) -> (r: &str)
        ensures
            r@ == self.url@,
    {
        self.url.as_str()
    }

    /// This collection's title.
    pub fn title(&self) -> (r: &str)
        ensures
            r@ == self.title@,
    {
        self.title.as_str()
    }

    /// The ids of the pages this collection holds, in order.
    pub fn children(&self) -> (r: &[Uuid])
        ensures
            r@ == self.child_ids@,
    {
        self.child_ids.as_slice()
    }

    /// Creation timestamp as an ISO-8601 string.
    pub fn created(&self) -> (r: &str)
        ensures
            r@ == self.created_at@,
    {
        self.created_at.as_str()
    }

    /// The id of the user who created this collection.
    pub fn created_by(&self) -> (r: &Uuid)
        ensures
            *r == self.created_user_id,
    {
        &self.created_user_id
    }

    /// Last modification timestamp as an ISO-8601 string.
    pub fn modified(&self) -> (r: &str)
        ensures
            r@ == self.last_updated_at@,
    {
        self.last_updated_at.as_str()
    }

    /// The id of the user who last modified this collection.
    pub fn modified_by(&self) -> (r: &Uuid)
        ensures
            *r == self.last_updated_user_id,
    {
        &self.last_updated_user_id
    }
}

impl FromJson for Collection {
    open spec fn json_decodable(v: JsonValue) -> bool {
        &&& as_uuid(get(v, "id"@)) is Some
        &&& as_uuid(get(v, "workspaceId"@)) is Some
        &&& as_text(get(v, "url"@)) is Some
        &&& as_text(get(v, "title"@)) is Some
        &&& as_text(get(v, "createdAt"@)) is Some
        &&& as_uuid(get(v, "createdUserId"@)) is Some
        &&& as_text(get(v, "lastUpdatedAt"@)) is Some
        &&& as_uuid(get(v, "lastUpdatedUserId"@)) is Some
        &&& as_uuid_seq(get(v, "childIds"@)) is Some
    }

    open spec fn json_decodes(v: JsonValue, r: Collection) -> bool {
        &&& as_uuid(get(v, "id"@)) == Some(r.id@)
        &&& as_uuid(get(v, "workspaceId"@)) == Some(r.workspace_id@)
        &&& as_text(get(v, "url"@)) == Some(r.url@)
        &&& as_text(get(v, "title"@)) == Some(r.title@)
        &&& as_text(get(v, "createdAt"@)) == Some(r.created_at@)
        &&& as_uuid(get(v, "createdUserId"@)) == Some(r.created_user_id@)
        &&& as_text(get(v, "lastUpdatedAt"@)) == Some(r.last_updated_at@)
        &&& as_uuid(get(v, "lastUpdatedUserId"@)) == Some(r.last_updated_user_id@)
        &&& as_uuid_seq(get(v, "childIds"@)) == Some(uuid_values(r.child_ids@))
    }

    fn from_json(v: &JsonValue) -> (r: Result<Collection, NuclinoError>) {
        let id = match uuid_member(v, "id") {
            Some(x) => x,
            None => {
                return Err(json_error("invalid field: id"));
            },
        };
        let workspace_id = match uuid_member(v, "workspaceId") {
            Some(x) => x,
            None => {
                return Err(json_error("invalid field: workspaceId"));
            },
        };
        let url = match text_member(v, "url") {
            Some(x) => x,
            None => {
                return Err(json_error("invalid field: url"));
            },
        };
        let title = match text_member(v, "title") {
            Some(x) => x,
            None => {
                return Err(json_error("invalid field: title"));
            },
        };
        let created_at = match text_member(v, "createdAt") {
            Some(x) => x,
            None => {
                return Err(json_error("invalid field: createdAt"));
            },
        };
        let created_user_id = match uuid_member(v, "createdUserId") {
            Some(x) => x,
            None => {
                return Err(json_error("invalid field: createdUserId"));
            },
        };
        let last_updated_at = match text_member(v, "lastUpdatedAt") {
            Some(x) => x,
            None => {
                return Err(json_error("invalid field: lastUpdatedAt"));
            },
        };
        let last_updated_user_id = match uuid_member(v, "lastUpdatedUserId") {
            Some(x) => x,
            None => {
                return Err(json_error("invalid field: lastUpdatedUserId"));
            },
        };
        let child_ids = match uuid_list_member(v, "childIds") {
            Some(x) => x,
            None => {
                return Err(json_error("invalid field: childIds"));
            },
        };
        Ok(Collection { id, workspace_id, url, title, created_at, created_user_id, last_updated_at, last_updated_user_id, child_ids })
    }
}

/// A regular wiki page, with Markdown content where it was asked for.
#[derive(Debug, Clone)]
pub struct Item {
    pub id: Uuid,
    pub workspace_id: Uuid,
    pub url: String,
    pub title: String,
    pub created_at: String,
    pub created_user_id: Uuid,
    pub last_updated_at: String,
    pub last_updated_user_id: Uuid,
    /// Field values by field name, in the order the service sent them.
    pub fields: Vec<(String, String)>,
    pub content: Option<String>,
    pub content_meta: Meta,
    pub highlight: Option<String>,
}

impl Item {
    /// The id of this item.
    pub fn id(&self) -> (r: &Uuid)
        ensures
            *r == self.id,
    {
        &self.id
    }

    /// The id of the workspace this item belongs to.
    pub fn workspace(&self) -> (r: &Uuid)
        ensures
            *r == self.workspace_id,
    {
        &self.workspace_id
    }

    /// This item's URL.
    pub fn url(&self) -> (r: &str)
        ensures
            r@ == self.url@,
    {
        self.url.as_str()
    }

    /// This item's title.
    pub fn title(&self) -> (r: &str)
        ensures
            r@ == self.title@,
    {
        self.title.as_str()
    }

    /// The content of this item, as Markdown.
    pub fn content(&self) -> (r: Option<&String>)
        ensures
            r matches Some(s) ==> self.content == Some(*s),
            r is None <==> self.content is None,
    {
        opt_ref(&self.content)
    }

    /// Creation timestamp as an ISO-8601 string.
    pub fn created(&self) -> (r: &str)
        ensures
            r@ == self.created_at@,
    {
        self.created_at.as_str()
    }

    /// The id of the user who created this item.
    pub fn created_by(&self) -> (r: &Uuid)
        ensures
            *r == self.created_user_id,
    {
        &self.created_user_id
    }

    /// Last modification timestamp as an ISO-8601 string.
    pub fn modified(&self) -> (r: &str)
        ensures
            r@ == self.last_updated_at@,
    {
        self.last_updated_at.as_str()
    }

    /// The id of the user who last modified this item.
    pub fn modified_by(&self) -> (r: &Uuid)
        ensures
            *r == self.last_updated_user_id,
    {
        &self.last_updated_user_id
    }

    /// Where this item came from a search, the text to highlight.
    pub fn highlight_text(&self) -> (r: Option<&String>)
        ensures
            r matches Some(s) ==> self.highlight == Some(*s),
            r is None <==> self.highlight is None,
    {
        opt_ref(&self.highlight)
    }

    /// The ids of the pages and files that the content refers to.
    pub fn content_meta(&self) -> (r: &Meta)
        ensures
            *r == self.content_meta,
    {
        &self.content_meta
    }

    /// The values of this item's fields: pairs of field name and value.
    pub fn field_values(&self) -> (r: &[(String, String)])
        ensures
            r@ == self.fields@,
    {
        self.fields.as_slice()
    }
}

impl FromJson for Item {
    open spec fn json_decodable(v: JsonValue) -> bool {
        &&& as_uuid(get(v, "id"@)) is Some
        &&& as_uuid(get(v, "workspaceId"@)) is Some
        &&& as_text(get(v, "url"@)) is Some
        &&& as_text(get(v, "title"@)) is Some
        &&& as_text(get(v, "createdAt"@)) is Some
        &&& as_uuid(get(v, "createdUserId"@)) is Some
        &&& as_text(get(v, "lastUpdatedAt"@)) is Some
        &&& as_uuid(get(v, "lastUpdatedUserId"@)) is Some
        &&& text_map_decodable(get(v, "fields"@))
        &&& as_opt_text(get(v, "content"@)) is Some
        &&& get(v, "contentMeta"@) matches Some(x) && Meta::json_decodable(x)
        &&& as_opt_text(get(v, "highlight"@)) is Some
    }

    open spec fn json_decodes(v: JsonValue, r: Item) -> bool {
        &&& as_uuid(get(v, "id"@)) == Some(r.id@)
        &&& as_uuid(get(v, "workspaceId"@)) == Some(r.workspace_id@)
        &&& as_text(get(v, "url"@)) == Some(r.url@)
        &&& as_text(get(v, "title"@)) == Some(r.title@)
        &&& as_text(get(v, "createdAt"@)) == Some(r.created_at@)
        &&& as_uuid(get(v, "createdUserId"@)) == Some(r.created_user_id@)
        &&& as_text(get(v, "lastUpdatedAt"@)) == Some(r.last_updated_at@)
        &&& as_uuid(get(v, "lastUpdatedUserId"@)) == Some(r.last_updated_user_id@)
        &&& text_map_decodes(get(v, "fields"@), r.fields@)
        &&& as_opt_text(get(v, "content"@)) == Some(opt_view(r.content))
        &&& get(v, "contentMeta"@) matches Some(x) && Meta::json_decodes(x, r.content_meta)
        &&& as_opt_text(get(v, "highlight"@)) == Some(opt_view(r.highlight))
    }

    fn from_json(v: &JsonValue) -> (r: Result<Item, NuclinoError>) {
        let id = match uuid_member(v, "id") {
            Some(x) => x,
            None => {
                return Err(json_error("invalid field: id"));
            },
        };
        let workspace_id = match uuid_member(v, "workspaceId") {
            Some(x) => x,
            None => {
                return Err(json_error("invalid field: workspaceId"));
            },
        };
        let url = match text_member(v, "url") {
            Some(x) => x,
            None => {
                return Err(json_error("invalid field: url"));
            },
        };
        let title = match text_member(v, "title") {
            Some(x) => x,
            None => {
                return Err(json_error("invalid field: title"));
            },
        };
        let created_at = match text_member(v, "createdAt") {
            Some(x) => x,
            None => {
                return Err(json_error("invalid field: createdAt"));
            },
        };
        let created_user_id = match uuid_member(v, "createdUserId") {
            Some(x) => x,
            None => {
                return Err(json_error("invalid field: createdUserId"));
            },
        };
        let last_updated_at = match text_member(v, "lastUpdatedAt") {
            Some(x) => x,
            None => {
                return Err(json_error("invalid field: lastUpdatedAt"));
            },
        };
        let last_updated_user_id = match uuid_member(v, "lastUpdatedUserId") {
            Some(x) => x,
            None => {
                return Err(json_error("invalid field: lastUpdatedUserId"));
            },
        };
        let fields = match text_map_member(v, "fields") {
            Some(x) => x,
            None => {
                return Err(json_error("invalid field: fields"));
            },
        };
        let content = match opt_text_member(v, "content") {
            Some(x) => x,
            None => {
                return Err(json_error("invalid field: content"));
            },
        };
        let content_meta = match get_member(v, "contentMeta") {
            Some(x) => match Meta::from_json(x) {
                Ok(y) => y,
                Err(e) => {
                    return Err(e);
                },
            },
            None => {
                return Err(json_error("missing field: contentMeta"));
            },
        };
        let highlight = match opt_text_member(v, "highlight") {
            Some(x) => x,
            None => {
                return Err(json_error("invalid field: highlight"));
            },
        };
        Ok(Item { id, workspace_id, url, title, created_at, created_user_id, last_updated_at, last_updated_user_id, fields, content, content_meta, highlight })
    }
}

/// The ids of the pages and files that an item's content refers to.
#[derive(Debug, Clone)]
pub struct Meta {
    /// The ids of the items and collections that appear inside the content.
    pub item_ids: Vec<Uuid>,
    /// The ids of the files that appear inside the content.
    pub file_ids: Vec<Uuid>,
}

impl FromJson for Meta {
    open spec fn json_decodable(v: JsonValue) -> bool {
        &&& as_uuid_seq(get(v, "itemIds"@)) is Some
        &&& as_uuid_seq(get(v, "fileIds"@)) is Some
    }

    open spec fn json_decodes(v: JsonValue, r: Meta) -> bool {
        &&& as_uuid_seq(get(v, "itemIds"@)) == Some(uuid_values(r.item_ids@))
        &&& as_uuid_seq(get(v, "fileIds"@)) == Some(uuid_values(r.file_ids@))
    }

    fn from_json(v: &JsonValue) -> (r: Result<Meta, NuclinoError>) {
        let item_ids = match uuid_list_member(v, "itemIds") {
            Some(x) => x,
            None => {
                return Err(json_error("invalid field: itemIds"));
            },
        };
        let file_ids = match uuid_list_member(v, "fileIds") {
            Some(x) => x,
            None => {
                return Err(json_error("invalid field: fileIds"));
            },
        };
        Ok(Meta { item_ids, file_ids })
    }
}

/// A downloadable file attached to an item.
#[derive(Debug, Clone)]
pub struct File {
    pub id: Uuid,
    pub item_id: Uuid,
    pub file_name: String,
    pub created_at: String,
    pub created_user_id: Uuid,
    pub download: DownloadInfo,
}

impl File {
    /// The id of this file.
    pub fn id(&self) -> (r: &Uuid)
        ensures
            *r == self.id,
    {
        &self.id
    }

    /// The id of the item the file is attached to.
    pub fn item_id(&self) -> (r: &Uuid)
        ensures
            *r == self.item_id,
    {
        &self.item_id
    }

    /// The name of the file.
    pub fn filename(&self) -> (r: &str)
        ensures
            r@ == self.file_name@,
    {
        self.file_name.as_str()
    }

    /// When the file was added, as an ISO-8601 string.
    pub fn created(&self) -> (r: &str)
        ensures
            r@ == self.created_at@,
    {
        self.created_at.as_str()
    }

    /// The id of the user who added the file.
    pub fn created_by(&self) -> (r: &Uuid)
        ensures
            *r == self.created_user_id,
    {
        &self.created_user_id
    }

    /// Where to download the file from, and until when.
    pub fn download_info(&self) -> (r: &DownloadInfo)
        ensures
            *r == self.download,
    {
        &self.download
    }
}

impl FromJson for File {
    open spec fn json_decodable(v: JsonValue) -> bool {
        &&& as_uuid(get(v, "id"@)) is Some
        &&& as_uuid(get(v, "itemId"@)) is Some
        &&& as_text(get(v, "fileName"@)) is Some
        &&& as_text(get(v, "createdAt"@)) is Some
        &&& as_uuid(get(v, "createdUserId"@)) is Some
        &&& get(v, "download"@) matches Some(x) && DownloadInfo::json_decodable(x)
    }

    open spec fn json_decodes(v: JsonValue, r: File) -> bool {
        &&& as_uuid(get(v, "id"@)) == Some(r.id@)
        &&& as_uuid(get(v, "itemId"@)) == Some(r.item_id@)
        &&& as_text(get(v, "fileName"@)) == Some(r.file_name@)
        &&& as_text(get(v, "createdAt"@)) == Some(r.created_at@)
        &&& as_uuid(get(v, "createdUserId"@)) == Some(r.created_user_id@)
        &&& get(v, "download"@) matches Some(x) && DownloadInfo::json_decodes(x, r.download)
    }

    fn from_json(v: &JsonValue) -> (r: Result<File, NuclinoError>) {
        let id = match uuid_member(v, "id") {
            Some(x) => x,
            None => {
                return Err(json_error("invalid field: id"));
            },
        };
        let item_id = match uuid_member(v, "itemId") {
            Some(x) => x,
            None => {
                return Err(json_error("invalid field: itemId"));
            },
        };
        let file_name = match text_member(v, "fileName") {
            Some(x) => x,
            None => {
                return Err(json_error("invalid field: fileName"));
            },
        };
        let created_at = match text_member(v, "createdAt") {
            Some(x) => x,
            None => {
                return Err(json_error("invalid field: createdAt"));
            },
        };
        let created_user_id = match uuid_member(v, "createdUserId") {
            Some(x) => x,
            None => {
                return Err(json_error("invalid field: createdUserId"));
            },
        };
        let download = match get_member(v, "download") {
            Some(x) => match DownloadInfo::from_json(x) {
                Ok(y) => y,
                Err(e) => {
                    return Err(e);
                },
            },
            None => {
                return Err(json_error("missing field: download"));
            },
        };
        Ok(File { id, item_id, file_name, created_at, created_user_id, download })
    }
}

/// Where to download a file from.
#[derive(Debug, Clone)]
pub struct DownloadInfo {
    /// A signed URL of the file, valid for a short while.
    pub url: String,
    /// When the URL expires, as an ISO-8601 string.
    pub expires_at: String,
}

impl FromJson for DownloadInfo {
    open spec fn json_decodable(v: JsonValue) -> bool {
        &&& as_text(get(v, "url"@)) is Some
        &&& as_text(get(v, "expiresAt"@)) is Some
    }

    open spec fn json_decodes(v: JsonValue, r: DownloadInfo) -> bool {
        &&& as_text(get(v, "url"@)) == Some(r.url@)
        &&& as_text(get(v, "expiresAt"@)) == Some(r.expires_at@)
    }

    fn from_json(v: &JsonValue) -> (r: Result<DownloadInfo, NuclinoError>) {
        let url = match text_member(v, "url") {
            Some(x) => x,
            None => {
                return Err(json_error("invalid field: url"));
            },
        };
        let expires_at = match text_member(v, "expiresAt") {
            Some(x) => x,
            None => {
                return Err(json_error("invalid field: expiresAt"));
            },
        };
        Ok(DownloadInfo { url, expires_at })
    }
}

} // verus!
