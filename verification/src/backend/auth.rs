//! Registration and login, against the fixed accounts of the demonstration
//! set-up.

use vstd::prelude::*;

verus! {

/// The credentials of a registration or a login.
#[derive(Debug, Clone)]
pub struct AuthRequest {
    pub email: String,
    pub password: String,
}

/// What a registration or a login is answered with.
#[derive(Debug, Clone)]
pub enum AuthOutcome {
    /// The user is let in, with a token.
    Granted { token: String, id: Option<String>, email: String, role: String },
    /// The user is turned away, with an HTTP status and a reason.
    Refused { status: u16, error: String },
}

/// The mathematical value of an [`AuthOutcome`].
pub enum AuthOutcomeView {
    Granted { token: Seq<char>, id: Option<Seq<char>>, email: Seq<char>, role: Seq<char> },
    Refused { status: u16, error: Seq<char> },
}

impl View for AuthOutcome {
    type V = AuthOutcomeView;

    open spec fn view(&self) -> AuthOutcomeView {
        match *self {
            AuthOutcome::Granted { token, id, email, role } => AuthOutcomeView::Granted {
                token: token@,
                id: match id {
                    Some(id) => Some(id@),
                    None => None,
                },
                email: email@,
                role: role@,
            },
            AuthOutcome::Refused { status, error } => AuthOutcomeView::Refused {
                status,
                error: error@,
            },
        }
    }
}

/// The answer to a registration: the one address that is taken is refused
/// as a conflict, every other becomes a provider.
pub open spec fn registration_of(email: Seq<char>) -> AuthOutcomeView {
    if email == "exists@example.com"@ {
        AuthOutcomeView::Refused { status: 409, error: "User already exists"@ }
    } else {
        AuthOutcomeView::Granted {
            token: "mock_jwt_token_for_new_user"@,
            id: None,
            email,
            role: "provider"@,
        }
    }
}

/// The answer to a login: the demonstration account with its password is
/// the administrator, everything else is refused.
pub open spec fn login_of(email: Seq<char>, password: Seq<char>) -> AuthOutcomeView {
    if email == "demo@inframint.com"@ && password == "password"@ {
        AuthOutcomeView::Granted {
            token: "mock_jwt_token_valid"@,
            id: Some("123"@),
            email,
            role: "admin"@,
        }
    } else {
        AuthOutcomeView::Refused { status: 401, error: "Invalid credentials"@ }
    }
}

/// Whether a string holds exactly the given text.
fn holds(text: &String, wanted: &str) -> (same: bool)
    ensures
        same == (text@ == wanted@),
{
    let wanted = wanted.to_owned();
    *text == wanted
}

/// Registers a user.
pub fn register(payload: &AuthRequest) -> (outcome: AuthOutcome)
    ensures
        outcome@ == registration_of(payload.email@),
{
    if holds(&payload.email, "exists@example.com") {
        return AuthOutcome::Refused { status: 409, error: "User already exists".to_owned() };
    }
    AuthOutcome::Granted {
        token: "mock_jwt_token_for_new_user".to_owned(),
        id: None,
        email: payload.email.clone(),
        role: "provider".to_owned(),
    }
}

/// Logs a user in.
pub fn login(payload: &AuthRequest) -> (outcome: AuthOutcome)
    ensures
        outcome@ == login_of(payload.email@, payload.password@),
{
    if holds(&payload.email, "demo@inframint.com") && holds(&payload.password, "password") {
        AuthOutcome::Granted {
            token: "mock_jwt_token_valid".to_owned(),
            id: Some("123".to_owned()),
            email: payload.email.clone(),
            role: "admin".to_owned(),
        }
    } else {
        AuthOutcome::Refused { status: 401, error: "Invalid credentials".to_owned() }
    }
}

} // verus!
