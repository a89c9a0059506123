//! Chat creation/update input and the pure rules applied to it: shape
//! validation and derivation of the chat type.

use vstd::prelude::*;
use crate::event::ChatType;

verus! {

/// Input describing a chat to create or update.
#[derive(Debug)]
pub struct ChatDTO {
    pub name: Option<String>,
    pub members: Vec<i64>,
    pub public: bool,
}

/// Application-level error raised while handling a request.
#[derive(Debug)]
pub enum AppError {
    ChatDTOError(String),
}

impl ChatDTO {
    /// Builds an input value; an empty name stands for "no name".
    pub fn new(name: &str, members: &[i64], public: bool) -> (dto: ChatDTO)
        ensures
            name@.len() == 0 ==> dto.name is None,
            name@.len() > 0 ==> (dto.name matches Some(n) && n@ == name@),
            dto.members@ == members@,
            dto.public == public,
    {
        let name = if name.unicode_len() == 0 {
            None
        } else {
            Some(name.to_owned())
        };
        let mut copied: Vec<i64> = Vec::new();
        let mut i: usize = 0;
        while i < members.len()
            invariant
                i <= members@.len(),
                copied@ == members@.take(i as int),
            decreases members@.len() - i,
        {
            copied.push(members[i]);
            proof {
                assert(copied@ =~= members@.take(i + 1 as int));
            }
            i = i + 1;
        }
        proof {
            assert(copied@ =~= members@);
        }
        ChatDTO { name, members: copied, public }
    }
}

/// The chat type an input maps to: an unnamed chat of exactly two members is
/// a direct chat, any other unnamed chat is a group, and a named chat is a
/// channel whose visibility follows the `public` flag.
pub open spec fn spec_chat_type(dto: ChatDTO) -> ChatType {
    match dto.name {
        Option::None => if dto.members@.len() == 2 {
            ChatType::Single
        } else {
            ChatType::Group
        },
        Option::Some(_) => if dto.public {
            ChatType::PublicChannel
        } else {
            ChatType::PrivateChannel
        },
    }
}

/// Derives the chat type from the input; the mapping is exhaustive and exact.
pub fn get_chat_type(input: &ChatDTO) -> (chat_type: ChatType)
    ensures
        chat_type == spec_chat_type(*input),
{
    match &input.name {
        None => {
            if input.members.len() == 2 {
                ChatType::Single
            } else {
                ChatType::Group
            }
        },
        Some(_) => {
            if input.public {
                ChatType::PublicChannel
            } else {
                ChatType::PrivateChannel
            }
        },
    }
}

/// Checks a chat input against the membership rules. The caller supplies
/// `existing_members`, the number of the named members that actually exist
/// in the store (looked up outside this function).
///
/// Exactly one of the three rejections applies, in this order: fewer than two
/// members; more than eight members without a name; some member that does not
/// exist. Any other input is accepted.
pub fn valid_chat_dto(input: &ChatDTO, existing_members: usize) -> (r: Result<(), AppError>)
    ensures
        input.members@.len() < 2 ==> (r matches Err(AppError::ChatDTOError(m))
            && m@ == "Chat must have at least 2 members"@),
        input.members@.len() >= 2 && input.members@.len() > 8 && input.name is None
            ==> (r matches Err(AppError::ChatDTOError(m))
            && m@ == "Group chat with more than 8 members must have a name"@),
        input.members@.len() >= 2 && !(input.members@.len() > 8 && input.name is None)
            && existing_members != input.members@.len()
            ==> (r matches Err(AppError::ChatDTOError(m))
            && m@ == "Some members do not exist"@),
        input.members@.len() >= 2 && !(input.members@.len() > 8 && input.name is None)
            && existing_members == input.members@.len() ==> r is Ok,
{
    let len = input.members.len();
    if len < 2 {
        return Err(AppError::ChatDTOError(String::from_str(
            "Chat must have at least 2 members",
        )));
    }
    if len > 8 && input.name.is_none() {
        return Err(AppError::ChatDTOError(String::from_str(
            "Group chat with more than 8 members must have a name",
        )));
    }
    if existing_members != len {
        return Err(AppError::ChatDTOError(String::from_str(
            "Some members do not exist",
        )));
    }
    Ok(())
}

} // verus!
