use vstd::prelude::*;

verus! {

/// Errors of the agent.
#[derive(Debug)]
pub enum AppError {
    Io(String),
    Internal(String),
    MissingEnv(String),
    Reqwest(String),
    TungsteniteConnect(String),
    WsStatus,
}

impl AppError {
    /// The text shown for the error.
    pub open spec fn message(&self) -> Seq<char> {
        match self {
            AppError::Io(t) => "IO Error: '"@ + t@ + "'"@,
            AppError::Internal(t) => "Internal error: '"@ + t@ + "'"@,
            AppError::MissingEnv(t) => "missing env: '"@ + t@ + "'"@,
            AppError::Reqwest(_) => "Reqwest Error"@,
            AppError::TungsteniteConnect(t) => "WS Connect: "@ + t@,
            AppError::WsStatus => "Invalid WS Status Code"@,
        }
    }

    #[allow(clippy::inherent_to_string)]
    pub fn to_string(&self) -> (r: String)
        ensures
            r@ == self.message(),
    {
        match self {
            AppError::Io(t) => quoted("IO Error: '", t),
            AppError::Internal(t) => quoted("Internal error: '", t),
            AppError::MissingEnv(t) => quoted("missing env: '", t),
            AppError::Reqwest(_) => String::from_str("Reqwest Error"),
            AppError::TungsteniteConnect(t) => {
                let mut s = String::from_str("WS Connect: ");
                s.append(t.as_str());
                s
            },
            AppError::WsStatus => String::from_str("Invalid WS Status Code"),
        }
    }
}

fn quoted(prefix: &str, t: &String) -> (r: String)
    ensures
        r@ == prefix@ + t@ + "'"@,
{
    let mut s = String::from_str(prefix);
    s.append(t.as_str());
    s.append("'");
    s
}

} // verus!
