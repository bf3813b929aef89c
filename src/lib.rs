//! A typed client library for the Nuclino wiki service API.
//!
//! The library decodes the service's JSON responses into domain records
//! (users, teams, workspaces, pages, files), builds the JSON bodies of page
//! creation and update requests, and describes each endpoint's HTTP request
//! (verb, URL with query, credentials). Sending requests over the network is
//! left to the caller.

mod client;
mod errors;
mod ids;
mod json;
mod request_types;
mod response_types;
mod types;

pub use client::{
    extra_param, limit_text, list_query, url_encoded, ApiRequest, Client, Method, APIKEY_ENV_VAR,
    BASE_URL,
};
pub use errors::{make_error, status_error, NuclinoError, NuclinoResult};
pub use ids::{hyphenated_text, uuid_parse_of, Uuid};
pub use json::{
    as_bool, as_opt_index, as_opt_text, as_text, as_uuid, as_uuid_seq, decimal_of, get,
    json_error, json_quoted, member, members_text, members_view, object_text, parsed_json,
    FromJson, JsonValue,
};
pub use request_types::{
    index_json, kind_name, lemma_new_item_body, modify_item_members, new_page_members, opt_member,
    text_json, uuid_json, ModifyItem, NewPage, NewPageBuilder, PageKind,
};
pub use response_types::{
    decode_response, envelope_outcome, has_payload, lemma_page_list, message_text,
    response_outcome, List, Response, ResponseInfo,
};
pub use types::{
    currency_shape, field_type_named, number_shape, opt_view, page_id, page_title,
    selections_shape, timestamp_shape, uuid_values, Collection, Config, DownloadInfo, Field,
    FieldType, File, IdOnly, Item, Meta, Page, Selection, Team, User, Workspace,
};
