//! Showing an account to whoever asks for it.
use vstd::prelude::*;
use vstd::string::StringExecFns;
use crate::domain::user::api::{GetUserResponse, GetUserResponseView};
use crate::domain::user::{User, UserView};
use crate::handlers::response::{bare, said, Response, Status, StoreError};
use crate::utils::identity::Identity;
use crate::utils::json::{
    encode_object, json_object_text, members_of, Field, Member, MemberView, Members,
};
use crate::utils::text::option_text;

verus! {

/// What is said of an account that is marked as deleted.
pub open spec fn soft_deleted_message(id: Identity) -> Seq<char> {
    "user "@ + id.text() + " has been soft deleted"@
}

/// What is said of what the store does not hold.
pub open spec fn not_found_message(id: Identity) -> Seq<char> {
    "user "@ + id.text() + " not found"@
}

/// The JSON member for a text that may be absent: the text, or null.
pub open spec fn optional_member(text: Option<Seq<char>>) -> MemberView {
    match text {
        Some(t) => MemberView::Text(t),
        None => MemberView::Other,
    }
}

/// The members of the JSON object that shows an account.
pub open spec fn shown_members(shown: GetUserResponseView) -> Members {
    seq![
        ("id"@, MemberView::Text(shown.id.text())),
        ("email"@, MemberView::Text(shown.email)),
        ("handle"@, MemberView::Text(shown.handle)),
        ("name"@, optional_member(shown.name)),
        ("profile_photo"@, optional_member(shown.profile_photo)),
        ("bio"@, optional_member(shown.bio)),
    ]
}

/// The JSON text that shows an account.
pub open spec fn shown_text(user: UserView) -> Seq<char> {
    json_object_text(
        shown_members(
            GetUserResponseView {
                id: user.id,
                email: user.email,
                handle: user.handle,
                name: user.name,
                profile_photo: user.profile_photo,
                bio: user.bio,
            },
        ),
    )
}

/// The JSON member for a text that may be absent.
fn optional_field(key: &str, text: Option<String>) -> (field: Field)
    ensures
        field@ == (key@, optional_member(option_text(text))),
{
    match text {
        Some(t) => Field { key: key.to_owned(), value: Member::Text(t) },
        None => Field { key: key.to_owned(), value: Member::Other },
    }
}

/// The JSON text that shows what is shown of an account.
pub fn encode(shown: &GetUserResponse) -> (text: String)
    ensures
        text@ == json_object_text(shown_members(shown@)),
{
    let fields = vec![
        Field { key: "id".to_owned(), value: Member::Text(shown.id().to_text()) },
        Field { key: "email".to_owned(), value: Member::Text(shown.email().as_ref().to_owned()) },
        Field { key: "handle".to_owned(), value: Member::Text(shown.handle().as_ref().to_owned()) },
        optional_field("name", shown.name()),
        optional_field("profile_photo", shown.profile_photo()),
        optional_field("bio", shown.bio()),
    ];
    assert(members_of(fields@) =~= shown_members(shown@));
    encode_object(&fields)
}

/// The answer to a request for the account `id`, given what the store
/// found: the account as JSON, or a refusal where it is deleted or does
/// not exist.
pub fn get_by_id(id: Identity, found: &Result<User, StoreError>) -> (response: Response)
    ensures
        response@ == match found {
            Ok(user) => if user@.deleted_at is Some {
                said(Status::BadRequest, soft_deleted_message(id))
            } else {
                said(Status::Success, shown_text(user@))
            },
            Err(StoreError::RowNotFound) => said(Status::NotFound, not_found_message(id)),
            Err(StoreError::Other(_)) => bare(Status::InternalServerError),
        },
{
    match found {
        Ok(user) => if user.is_deleted() {
            let mut body = "user ".to_owned();
            body.append(id.to_text().as_str());
            body.append(" has been soft deleted");
            Response::body(Status::BadRequest, body)
        } else {
            Response::body(Status::Success, encode(&GetUserResponse::from_user(user)))
        },
        Err(StoreError::RowNotFound) => {
            let mut body = "user ".to_owned();
            body.append(id.to_text().as_str());
            body.append(" not found");
            Response::body(Status::NotFound, body)
        },
        Err(StoreError::Other(_)) => Response::finish(Status::InternalServerError),
    }
}

} // verus!
