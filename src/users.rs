//! The user directory behind the gRPC user service: synthetic records for
//! reads, fresh records for creates and updates, and a counter that numbers
//! created users. Id 0 always means "no such user".

use vstd::prelude::*;
use crate::errors::AppError;
use crate::subscription::{fresh_subscription, Subscription};
use crate::text::{push_signed_decimal, signed_decimal};

verus! {

/// A user record.
#[derive(Debug)]
pub struct User {
    pub id: i32,
    pub name: String,
    pub email: String,
    pub age: i32,
}

/// The confirmation of a delete.
#[derive(Debug)]
pub struct DeleteUserResponse {
    pub success: bool,
    pub message: String,
}

/// The record that a read of user `id` returns.
pub open spec fn is_directory_user(u: User, id: i32) -> bool {
    &&& u.id == id
    &&& u.name@ == "John Doe"@
    &&& u.email@ == "john@example.com"@
    &&& u.age == 30
}

/// The text that confirms the delete of user `id`.
pub open spec fn deleted_message(id: i32) -> Seq<char> {
    "User "@ + signed_decimal(id as int) + " deleted successfully"@
}

/// The user service's state: how many users it has created. The application
/// serialises creates (one lock around the service), so ids never repeat.
#[derive(Debug)]
pub struct UserServiceImpl {
    next_id: u32,
}

impl Default for UserServiceImpl {
    fn default() -> (r: UserServiceImpl)
        ensures
            r.issued() == 0,
    {
        UserServiceImpl::new()
    }
}

impl UserServiceImpl {
    /// How many users this service has created.
    pub closed spec fn issued(&self) -> nat {
        self.next_id as nat
    }

    /// A service that has created no user yet.
    pub fn new() -> (r: UserServiceImpl)
        ensures
            r.issued() == 0,
    {
        UserServiceImpl { next_id: 0 }
    }

    /// Reads user `user_id`; not found for id 0.
    pub fn get_user(&self, user_id: i32) -> (r: Result<User, AppError>)
        ensures
            r is Err <==> user_id == 0,
            r matches Err(e) ==> e == AppError::NotFound,
            r matches Ok(u) ==> is_directory_user(u, user_id),
    {
        if user_id == 0 {
            return Err(AppError::NotFound);
        }
        Ok(User {
            id: user_id,
            name: String::from_str("John Doe"),
            email: String::from_str("john@example.com"),
            age: 30,
        })
    }

    /// Creates a user with the next id (1 for the first). Fails, changing
    /// nothing, only once every positive `i32` id has been handed out.
    pub fn create_user(&mut self, name: String, email: String, age: i32) -> (r: Result<
        User,
        AppError,
    >)
        ensures
            r is Ok <==> old(self).issued() < i32::MAX,
            r matches Ok(u) ==> u.id == old(self).issued() + 1 && u.name == name && u.email == email
                && u.age == age,
            r is Ok ==> final(self).issued() == old(self).issued() + 1,
            r matches Err(e) ==> e == AppError::InternalError,
            r is Err ==> final(self).issued() == old(self).issued(),
    {
        if self.next_id >= 0x7fff_ffff {
            return Err(AppError::InternalError);
        }
        self.next_id = self.next_id + 1;
        Ok(User { id: self.next_id as i32, name, email, age })
    }

    /// Replaces user `user_id` with the given fields; not found for id 0.
    pub fn update_user(&self, user_id: i32, name: String, email: String, age: i32) -> (r: Result<
        User,
        AppError,
    >)
        ensures
            r is Err <==> user_id == 0,
            r matches Err(e) ==> e == AppError::NotFound,
            r matches Ok(u) ==> u.id == user_id && u.name == name && u.email == email && u.age
                == age,
    {
        if user_id == 0 {
            return Err(AppError::NotFound);
        }
        Ok(User { id: user_id, name, email, age })
    }

    /// Deletes user `user_id`; not found for id 0.
    pub fn delete_user(&self, user_id: i32) -> (r: Result<DeleteUserResponse, AppError>)
        ensures
            r is Err <==> user_id == 0,
            r matches Err(e) ==> e == AppError::NotFound,
            r matches Ok(d) ==> d.success && d.message@ == deleted_message(user_id),
    {
        if user_id == 0 {
            return Err(AppError::NotFound);
        }
        let mut message = String::from_str("User ");
        push_signed_decimal(&mut message, user_id as i64);
        message.append(" deleted successfully");
        Ok(DeleteUserResponse { success: true, message })
    }

    /// Opens a subscription to the updates of user `user_id`, every
    /// `interval_seconds` seconds (2 when that is not positive).
    pub fn subscribe_user_updates(&self, user_id: i32, interval_seconds: i32) -> (r: Subscription)
        ensures
            r == fresh_subscription(user_id, interval_seconds),
    {
        Subscription::new(user_id, interval_seconds)
    }
}

} // verus!
