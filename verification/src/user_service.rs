//! Requests and answers of the user service.
use vstd::prelude::*;

verus! {

/// A registration request.
#[derive(Debug)]
pub struct UserCreateRequest {
    pub username: String,
    pub email: String,
    pub password: String,
}

impl UserCreateRequest {
    pub fn new(username: String, email: String, password: String) -> (r: Self)
        ensures
            r.username == username,
            r.email == email,
            r.password == password,
    {
        Self { username, email, password }
    }
}

/// A login request.
#[derive(Debug, Clone)]
pub struct UserLoginRequest {
    pub username: String,
    pub password: String,
}

impl UserLoginRequest {
    pub fn new(username: String, password: String) -> (r: Self)
        ensures
            r.username == username,
            r.password == password,
    {
        Self { username, password }
    }
}

/// The answer to a successful login.
#[derive(Debug, Clone)]
pub struct UserLoginResponse {
    pub token: String,
}

impl UserLoginResponse {
    pub fn token(&self) -> (r: &str)
        ensures
            r@ == self.token@,
    {
        self.token.as_str()
    }
}

} // verus!
