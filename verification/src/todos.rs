//! The todo list behind the protected routes: what each request is answered
//! with, given the principal of the request and what the store did.

pub mod todo_service;

use vstd::prelude::*;

use crate::auth::claims::Claims;

verus! {

/// The answers of the todo list routes.
#[derive(Clone, Copy, Debug, PartialEq, Eq, Structural)]
pub enum Reply {
    Success,
    Created,
    NoContent,
    BadRequest,
    Forbidden,
    NotFound,
    InternalServerError,
}

impl Reply {
    /// The HTTP status code of the answer.
    pub open spec fn status(self) -> int {
        match self {
            Reply::Success => 200,
            Reply::Created => 201,
            Reply::NoContent => 204,
            Reply::BadRequest => 400,
            Reply::Forbidden => 403,
            Reply::NotFound => 404,
            Reply::InternalServerError => 500,
        }
    }

    /// The HTTP status code of the answer.
    pub fn status_code(&self) -> (code: u16)
        ensures
            code == self.status(),
    {
        match self {
            Reply::Success => 200,
            Reply::Created => 201,
            Reply::NoContent => 204,
            Reply::BadRequest => 400,
            Reply::Forbidden => 403,
            Reply::NotFound => 404,
            Reply::InternalServerError => 500,
        }
    }
}

/// A todo item as a request creates it: not completed, and owned by the
/// subject of the request's claims.
#[derive(Debug)]
pub struct NewToDo {
    pub descr: String,
    /// Milliseconds since the Unix epoch.
    pub created_at: i64,
    pub completed: bool,
    pub user_id: String,
}

/// The owner on whose behalf a request acts: the subject of its claims. A
/// request without claims is answered `Forbidden`, and the store is not
/// asked.
pub fn owner<'a>(claims: Option<&'a Claims>) -> (subject: Result<&'a str, Reply>)
    ensures
        match claims {
            Some(c) => subject matches Ok(s) && s@ == c.sub@,
            None => subject == Err::<&str, Reply>(Reply::Forbidden),
        },
{
    match claims {
        Some(c) => Ok(c.sub.as_str()),
        None => Err(Reply::Forbidden),
    }
}

/// The item that a request of `owner` creates at the time `now`, in
/// milliseconds since the Unix epoch.
pub fn new_todo(descr: &str, owner: &str, now: i64) -> (item: NewToDo)
    ensures
        item.descr@ == descr@,
        item.created_at == now,
        !item.completed,
        item.user_id@ == owner@,
{
    NewToDo { descr: descr.to_owned(), created_at: now, completed: false, user_id: owner.to_owned() }
}

/// The answer to a request that creates an item, once the store has stored
/// it or failed.
pub fn create_todo<T, E>(stored: &Result<T, E>) -> (reply: Reply)
    ensures
        reply == match *stored {
            Ok(_) => Reply::Created,
            Err(_) => Reply::InternalServerError,
        },
{
    match stored {
        Ok(_) => Reply::Created,
        Err(_) => Reply::InternalServerError,
    }
}

/// The answer to a request for one item, once the store has looked for it.
pub fn get_todo<T, E>(found: &Result<Option<T>, E>) -> (reply: Reply)
    ensures
        reply == match *found {
            Ok(Some(_)) => Reply::Success,
            Ok(None) => Reply::NotFound,
            Err(_) => Reply::InternalServerError,
        },
{
    match found {
        Ok(Some(_)) => Reply::Success,
        Ok(None) => Reply::NotFound,
        Err(_) => Reply::InternalServerError,
    }
}

/// The answer to a request that deletes one item, once the store has tried.
pub fn delete_todo<E>(deleted: &Result<Option<i64>, E>) -> (reply: Reply)
    ensures
        reply == match *deleted {
            Ok(Some(_)) => Reply::NoContent,
            Ok(None) => Reply::NotFound,
            Err(_) => Reply::InternalServerError,
        },
{
    match deleted {
        Ok(Some(_)) => Reply::NoContent,
        Ok(None) => Reply::NotFound,
        Err(_) => Reply::InternalServerError,
    }
}

/// The answer to a request for a page of items, once the store has listed
/// it; there is no page where the request names a last item that is none.
pub fn list_todos<T, E>(listed: &Result<Option<Vec<T>>, E>) -> (reply: Reply)
    ensures
        reply == match *listed {
            Ok(Some(_)) => Reply::Success,
            Ok(None) => Reply::BadRequest,
            Err(_) => Reply::InternalServerError,
        },
{
    match listed {
        Ok(Some(_)) => Reply::Success,
        Ok(None) => Reply::BadRequest,
        Err(_) => Reply::InternalServerError,
    }
}

} // verus!
