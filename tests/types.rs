use nuclino_rs::{
    decode_response, Config, FieldType, List, NuclinoError, Page, Response, ResponseInfo, Team,
    User, Uuid, Workspace, File, IdOnly,
};

const WORKSPACE: &str = r#"{
  "status": "success",
  "data": {
    "object": "workspace",
    "id": "127a8c4a-b3c6-4a42-8fef-b6c521e6c8cf",
    "teamId": "020f9737-7b21-442b-85eb-bd420e5593b2",
    "name": "General",
    "createdAt": "2021-12-15T15:54:23.598Z",
    "createdUserId": "2e96f3bb-c742-4164-af2c-151ab2fd346b",
    "fields": [
      {
        "object": "field",
        "id": "1504df6f-5704-43e9-9af9-79ed801828d8",
        "type": "date",
        "name": "My date field"
      }
    ],
    "childIds": ["aaf6d580-565d-497b-9ff3-b32075de3f4c"]
  }
}"#;

const ITEM_LIST: &str = r#"{
  "status": "success",
  "data": {
    "object": "list",
    "results": [
      {
        "object": "item",
        "id": "aaf6d580-565d-497b-9ff3-b32075de3f4c",
        "workspaceId": "127a8c4a-b3c6-4a42-8fef-b6c521e6c8cf",
        "url": "https://app.nuclino.com/t/b/aaf6d580-565d-497b-9ff3-b32075de3f4c",
        "title": "My Item",
        "createdAt": "2021-12-15T15:55:19.527Z",
        "createdUserId": "2e96f3bb-c742-4164-af2c-151ab2fd346b",
        "lastUpdatedAt": "2021-12-15T17:02:53.487Z",
        "lastUpdatedUserId": "2e96f3bb-c742-4164-af2c-151ab2fd346b",
        "fields": {
          "My date field": "2025-01-20"
        },
        "contentMeta": { "itemIds": [], "fileIds": [] }
      },
      {
        "object": "collection",
        "id": "e9e648b3-8ce3-410d-8ef8-51b46c63cdaf",
        "workspaceId": "127a8c4a-b3c6-4a42-8fef-b6c521e6c8cf",
        "url": "https://app.nuclino.com/t/b/e9e648b3-8ce3-410d-8ef8-51b46c63cdaf",
        "title": "My collection",
        "createdAt": "2021-12-15T17:02:56.276Z",
        "createdUserId": "2e96f3bb-c742-4164-af2c-151ab2fd346b",
        "lastUpdatedAt": "2021-12-15T17:03:00.389Z",
        "lastUpdatedUserId": "2e96f3bb-c742-4164-af2c-151ab2fd346b",
        "childIds": []
      }
    ]
  }
}"#;

#[test]
fn user() {
    let input = r#"{
      "status": "success",
      "data": {
        "object": "user",
        "id": "9bff403a-6e0a-4f17-beac-c4333bd719b4",
        "firstName": "Thomas",
        "lastName": "Anderson",
        "email": "thomas@nuclino.com",
        "avatarUrl": "https://files.nuclino.com/avatars/9bff403a-6e0a-4f1..."
      }
    }"#;
    let result = Response::<User>::from_text(input)
        .expect("must be able to deserialize User response");
    assert!(result.is_success());
    let user = result.data().expect("we expected a valid user object.");
    assert_eq!(user.first_name, "Thomas".to_string());
    assert_eq!(user.first_name(), "Thomas");
    let id = Uuid::parse_str("9bff403a-6e0a-4f17-beac-c4333bd719b4")
        .expect("expected a valid uuid in the example");
    assert_eq!(user.id(), &id);
}

#[test]
fn workspace() {
    let result = Response::<Workspace>::from_text(WORKSPACE)
        .expect("must be able to deserialize Workspace response");
    assert!(result.is_success());

    let workspace = result.data().expect("we expected a valid workspace");
    let id = Uuid::parse_str("127a8c4a-b3c6-4a42-8fef-b6c521e6c8cf")
        .expect("the example id should be a valid uuid");
    assert_eq!(workspace.id(), &id);
    let child_id =
        Uuid::parse_str("aaf6d580-565d-497b-9ff3-b32075de3f4c").expect("expected valid uuid");
    assert!(workspace.children().contains(&child_id));
}

#[test]
fn workspace_sample_decodes_to_general_with_one_child() {
    let workspace: Workspace = decode_response(200, WORKSPACE).expect("a workspace");
    let child_id = Uuid::parse_str("aaf6d580-565d-497b-9ff3-b32075de3f4c").unwrap();
    assert_eq!(workspace.children(), &[child_id][..]);
    assert_eq!(workspace.name(), "General");
    assert_eq!(workspace.created(), "2021-12-15T15:54:23.598Z");
    assert_eq!(
        workspace.team_id(),
        &Uuid::parse_str("020f9737-7b21-442b-85eb-bd420e5593b2").unwrap()
    );
    assert_eq!(workspace.fields().len(), 1);
    let field = &workspace.fields()[0];
    assert_eq!(field.name(), "My date field");
    assert_eq!(field.field_type(), &FieldType::Date);
    assert!(matches!(field.configuration(), Config::Absent));
}

#[test]
fn workspace_list() {
    let input = r#"{
      "status": "success",
      "data": {
        "object": "list",
        "results": [
          {
            "object": "workspace",
            "id": "127a8c4a-b3c6-4a42-8fef-b6c521e6c8cf",
            "teamId": "020f9737-7b21-442b-85eb-bd420e5593b2",
            "name": "General",
            "createdAt": "2021-12-15T15:54:23.598Z",
            "createdUserId": "2e96f3bb-c742-4164-af2c-151ab2fd346b",
            "fields": [
              {
                "object": "field",
                "id": "1504df6f-5704-43e9-9af9-79ed801828d8",
                "type": "date",
                "name": "My date field"
              }
            ],
            "childIds": ["aaf6d580-565d-497b-9ff3-b32075de3f4c"]
          },
          {
            "object": "workspace",
            "id": "66be346f-44e2-49da-888b-a2e381d4d92a",
            "teamId": "020f9737-7b21-442b-85eb-bd420e5593b2",
            "name": "Sprint planning",
            "createdAt": "2021-12-15T15:54:05.085Z",
            "createdUserId": "2e96f3bb-c742-4164-af2c-151ab2fd346b",
            "fields": [],
            "childIds": []
          }
        ]
      }
    }"#;
    let result = Response::<List<Workspace>>::from_text(input)
        .expect("must be able to deserialize Workspace response");
    assert!(result.is_success());
    let wrapper = result
        .data()
        .expect("successful deserializations should result in valid data. it's a fact.");
    assert_eq!(wrapper.slice().len(), 2);
}

#[test]
fn team() {
    let input = r#"{
      "status": "success",
      "data": {
        "object": "team",
        "id": "020f9737-7b21-442b-85eb-bd420e5593b2",
        "url": "https://app.nuclino.com/Team-One",
        "name": "Team One",
        "createdAt": "2021-10-21T09:34:47.885Z",
        "createdUserId": "2e96f3bb-c742-4164-af2c-151ab2fd346b"
      }
    }"#;
    let result = Response::<Team>::from_text(input)
        .expect("must be able to deserialize team response");
    assert!(result.is_success());
    let team = result.data().expect("expected a valid team object");
    assert_eq!(team.name(), "Team One");
}

#[test]
fn team_list() {
    let input = r#"{
      "status": "success",
      "data": {
        "object": "list",
        "results": [
          {
            "object": "team",
            "id": "020f9737-7b21-442b-85eb-bd420e5593b2",
            "url": "https://app.nuclino.com/Team-One",
            "name": "Team One",
            "createdAt": "2021-10-21T09:34:47.885Z",
            "createdUserId": "2e96f3bb-c742-4164-af2c-151ab2fd346b"
          },
          {
            "object": "team",
            "id": "2e5474ad-c433-4a02-9bde-5455a12d025f",
            "url": "https://app.nuclino.com/Team-Two",
            "name": "Team Two",
            "createdAt": "2021-11-29T14:21:30.052Z",
            "createdUserId": "2e96f3bb-c742-4164-af2c-151ab2fd346b"
          }
        ]
      }
    }"#;

    let result = Response::<List<Team>>::from_text(input)
        .expect("must be able to deserialize a list of teams");
    assert!(result.is_success());
}

#[test]
fn file_objects() {
    let input = r#"{
      "status": "success",
      "data": {
        "object": "file",
        "id": "eec0a152-b1e9-43fd-bef8-987f95c85c6e",
        "itemId": "dd9a69db-048d-4644-8738-36bee31bbee0",
        "fileName": "screenshot.png",
        "createdAt": "2021-12-15T07:58:11.196Z",
        "createdUserId": "2e96f3bb-c742-4164-af2c-151ab2fd346b",
        "download": {
          "url": "https://nuclino-files.s3.eu-central-1.amazonaws.com/a122ab11...",
          "expiresAt": "2021-12-15T08:08:49.931Z"
        }
      }
    }"#;
    let result = Response::<File>::from_text(input)
        .expect("must be able to deserialize a file response");
    assert!(result.is_success());
    let file = result.data().unwrap();
    assert_eq!(file.filename(), "screenshot.png");
    assert_eq!(file.download_info().expires_at, "2021-12-15T08:08:49.931Z");
}

#[test]
fn item_list() {
    let result = Response::<List<Page>>::from_text(ITEM_LIST)
        .expect("must be able to deserialize a list of items response");
    assert!(result.is_success());
    let list = result
        .data()
        .expect("successful deserialization should give us data")
        .as_vec();
    assert_eq!(list.len(), 2);
}

#[test]
fn page_list_keeps_variants_ids_and_titles() {
    let list: List<Page> = decode_response(200, ITEM_LIST).expect("a list of pages");
    let pages = list.slice();
    assert_eq!(pages.len(), 2);
    assert!(matches!(pages[0], Page::Item(_)));
    assert!(matches!(pages[1], Page::Collection(_)));
    assert_eq!(pages[0].id(), &Uuid::parse_str("aaf6d580-565d-497b-9ff3-b32075de3f4c").unwrap());
    assert_eq!(pages[1].id(), &Uuid::parse_str("e9e648b3-8ce3-410d-8ef8-51b46c63cdaf").unwrap());
    assert_eq!(pages[0].title(), "My Item");
    assert_eq!(pages[1].title(), "My collection");
    assert_eq!(pages[1].modified(), "2021-12-15T17:03:00.389Z");
    match &pages[0] {
        Page::Item(item) => {
            assert_eq!(
                item.field_values(),
                &[("My date field".to_string(), "2025-01-20".to_string())][..]
            );
            assert!(item.content().is_none());
            assert!(item.content_meta().item_ids.is_empty());
        }
        Page::Collection(_) => panic!("expected an item"),
    }
}

#[test]
fn unknown_page_kind_is_a_json_error() {
    let body = r#"{"status":"success","data":{"object":"folder","id":"aaf6d580-565d-497b-9ff3-b32075de3f4c"}}"#;
    let r: Result<Page, NuclinoError> = decode_response(200, body);
    assert!(matches!(r, Err(NuclinoError::JsonError(_))));
}

#[test]
fn success_envelope_yields_its_payload() {
    let body = r#"{"status":"success","data":{"id":"9bff403a-6e0a-4f17-beac-c4333bd719b4"}}"#;
    let r: IdOnly = decode_response(200, body).expect("an id");
    assert_eq!(r.id().as_u128(), 0x9bff403a_6e0a_4f17_beac_c4333bd719b4);
}

#[test]
fn fail_envelope_is_a_client_error_with_message() {
    let body = r#"{"status":"fail","message":"bad request"}"#;
    let r: Result<Team, NuclinoError> = decode_response(400, body);
    assert_eq!(
        r.unwrap_err(),
        NuclinoError::ClientError { status: 400, message: "bad request".to_string() }
    );
}

#[test]
fn error_envelope_is_a_server_error_with_empty_message() {
    let body = r#"{"status":"error"}"#;
    let r: Result<Team, NuclinoError> = decode_response(503, body);
    assert_eq!(
        r.unwrap_err(),
        NuclinoError::ServerError { status: 503, message: String::new() }
    );
}

#[test]
fn status_code_decides_the_error_kind() {
    let body = r#"{"status":"fail","message":"m"}"#;
    let r: Result<Team, NuclinoError> = decode_response(499, body);
    assert!(matches!(r, Err(NuclinoError::ClientError { status: 499, .. })));
    let r: Result<Team, NuclinoError> = decode_response(500, body);
    assert!(matches!(r, Err(NuclinoError::ServerError { status: 500, .. })));
}

#[test]
fn success_without_data_is_no_data_returned() {
    let r: Result<Team, NuclinoError> = decode_response(200, r#"{"status":"success"}"#);
    assert_eq!(r.unwrap_err(), NuclinoError::NoDataReturned);
    let r: Result<Team, NuclinoError> =
        decode_response(200, r#"{"status":"success","data":null}"#);
    assert_eq!(r.unwrap_err(), NuclinoError::NoDataReturned);
}

#[test]
fn malformed_bodies_are_json_errors() {
    let r: Result<Team, NuclinoError> = decode_response(200, "not json");
    assert!(matches!(r, Err(NuclinoError::JsonError(_))));
    let r: Result<Team, NuclinoError> = decode_response(200, r#"{"data":{}}"#);
    assert!(matches!(r, Err(NuclinoError::JsonError(_))));
    let r: Result<Team, NuclinoError> =
        decode_response(200, r#"{"status":"success","data":{"id":"not-a-uuid"}}"#);
    assert!(matches!(r, Err(NuclinoError::JsonError(_))));
}

#[test]
fn response_info_reports_status() {
    let r = Response::<Team>::from_text(r#"{"status":"error","message":"down"}"#).unwrap();
    assert!(r.is_server_error());
    assert!(!r.is_client_error());
    assert!(!r.is_success());
    assert_eq!(r.message(), "down");
    assert!(r.data().is_none());
    let r = Response::<Team>::from_text(r#"{"status":"fail"}"#).unwrap();
    assert!(r.is_client_error());
    assert_eq!(r.message(), "");
}

fn field_config(config: &str) -> Result<Workspace, NuclinoError> {
    let body = format!(
        r#"{{"status":"success","data":{{"id":"127a8c4a-b3c6-4a42-8fef-b6c521e6c8cf",
        "teamId":"020f9737-7b21-442b-85eb-bd420e5593b2","name":"W","createdAt":"now",
        "createdUserId":"2e96f3bb-c742-4164-af2c-151ab2fd346b","childIds":[],
        "fields":[{{"id":"1504df6f-5704-43e9-9af9-79ed801828d8","type":"number","name":"F",
        "config":{}}}]}}}}"#,
        config
    );
    decode_response(200, &body)
}

#[test]
fn field_configs_are_read_by_shape() {
    let w = field_config(r#"{"fractionDigits":2}"#).unwrap();
    assert!(matches!(w.fields()[0].configuration(), Config::Number { fraction_digits: Some(2) }));
    let w = field_config(r#"{"currency":"EUR","fractionDigits":2}"#).unwrap();
    match w.fields()[0].configuration() {
        Config::Currency { currency, fraction_digits } => {
            assert_eq!(currency, "EUR");
            assert_eq!(*fraction_digits, Some(2));
        }
        other => panic!("unexpected {:?}", other),
    }
    let w = field_config(
        r#"{"options":[{"id":"1504df6f-5704-43e9-9af9-79ed801828d8","name":"red"}]}"#,
    )
    .unwrap();
    match w.fields()[0].configuration() {
        Config::Selections { options } => {
            assert_eq!(options.len(), 1);
            assert_eq!(options[0].name, "red");
        }
        other => panic!("unexpected {:?}", other),
    }
    let w = field_config(r#"{"includeTime":true}"#).unwrap();
    assert!(matches!(w.fields()[0].configuration(), Config::Timestamp { include_time: true }));
    let w = field_config("null").unwrap();
    assert!(matches!(w.fields()[0].configuration(), Config::Absent));
    let w = field_config("{}").unwrap();
    assert!(matches!(w.fields()[0].configuration(), Config::Number { fraction_digits: None }));
    assert!(matches!(field_config(r#"{"fractionDigits":-1}"#), Err(NuclinoError::JsonError(_))));
    assert!(matches!(field_config(r#"{"fractionDigits":1.5}"#), Err(NuclinoError::JsonError(_))));
    assert!(matches!(field_config("3"), Err(NuclinoError::JsonError(_))));
}

#[test]
fn field_types_with_config() {
    assert!(FieldType::Number.has_config());
    assert!(FieldType::Currency.has_config());
    assert!(FieldType::Select.has_config());
    assert!(FieldType::MultiSelect.has_config());
    assert!(FieldType::CreatedAt.has_config());
    assert!(FieldType::UpdatedAt.has_config());
    assert!(!FieldType::Date.has_config());
    assert!(!FieldType::Text.has_config());
    assert!(!FieldType::MultiCollaborator.has_config());
    assert!(!FieldType::CreatedBy.has_config());
    assert!(!FieldType::LastUpdatedBy.has_config());
    assert_eq!(FieldType::from_name(&"multiSelect".to_string()), Some(FieldType::MultiSelect));
    assert_eq!(FieldType::from_name(&"MultiSelect".to_string()), None);
}

#[test]
fn uuid_text_round_trip() {
    let u = Uuid::parse_str("127A8C4A-B3C6-4A42-8FEF-B6C521E6C8CF").unwrap();
    assert_eq!(u.to_text(), "127a8c4a-b3c6-4a42-8fef-b6c521e6c8cf");
    assert_eq!(u.as_u128(), 0x127a8c4a_b3c6_4a42_8fef_b6c521e6c8cf);
    assert_eq!(Uuid::from_u128(1).to_text(), "00000000-0000-0000-0000-000000000001");
    assert!(Uuid::parse_str("127a8c4a").is_none());
}
