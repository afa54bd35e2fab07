//! Where the socket of the speech server is found.
//!
//! The server listens on a named socket in the runtime directory of the
//! user, at `speech-dispatcher/speechd.sock`.

use crate::error::{ClientError, ClientErrorView, ErrorKind, IoErrorView};
use crate::types::{option_text, result_view};
use vstd::prelude::*;
use vstd::string::*;

verus! {

/// Name of the directory of the speech server, inside the runtime
/// directory.
pub const SPEECHD_APPLICATION_NAME: &'static str = "speech-dispatcher";

/// Name of the socket, inside the directory of the speech server.
pub const SPEECHD_SOCKET_NAME: &'static str = "speechd.sock";

/// The path of `name` inside the directory `base`: a separator is put
/// between the two unless `base` is empty or ends with one.
pub open spec fn join_path(base: Seq<char>, name: Seq<char>) -> Seq<char> {
    if base.len() == 0 || base.last() == '/' {
        base + name
    } else {
        base + "/"@ + name
    }
}

/// The path of the socket inside the runtime directory `dir`.
pub open spec fn socket_in(dir: Seq<char>) -> Seq<char> {
    join_path(join_path(dir, SPEECHD_APPLICATION_NAME@), SPEECHD_SOCKET_NAME@)
}

/// The path of the socket, where there is a runtime directory.
pub open spec fn socket_of(runtime_dir: Option<Seq<char>>) -> Result<Seq<char>, ClientErrorView> {
    match runtime_dir {
        Some(dir) => Ok(socket_in(dir)),
        None => Err(
            ClientErrorView::Io(
                IoErrorView { kind: ErrorKind::NotFound, message: "unix socket not found"@ },
            ),
        ),
    }
}

/// Writes the path of `name` inside the directory `base`.
pub fn join(base: &str, name: &str) -> (path: String)
    ensures
        path@ == join_path(base@, name@),
{
    let mut path = base.to_string();
    let length = base.unicode_len();
    if length > 0 && base.get_char(length - 1) != '/' {
        path.append("/");
    }
    path.append(name);
    path
}

/// The path of the socket of the speech server, where the user has a
/// runtime directory.
pub fn socket_path(runtime_dir: Option<String>) -> (path: Result<String, ClientError>)
    ensures
        result_view(path) == socket_of(option_text(runtime_dir)),
{
    match runtime_dir {
        Some(dir) => {
            let directory = join(dir.as_str(), SPEECHD_APPLICATION_NAME);
            Ok(join(directory.as_str(), SPEECHD_SOCKET_NAME))
        },
        None => Err(ClientError::io_error(ErrorKind::NotFound, "unix socket not found")),
    }
}

/// `dirs::runtime_dir`: the runtime directory of the user, as the
/// environment gives it. Nothing is claimed of it: the answer may differ
/// from one call to the next. A directory whose name is not valid Unicode
/// counts as none.
#[verifier::external_body]
fn runtime_dir() -> (dir: Option<String>) {
    match dirs::runtime_dir() {
        Some(dir) => dir.into_os_string().into_string().ok(),
        None => None,
    }
}

/// The path of a socket: the one that was chosen or, by default, the one
/// in the runtime directory of the user.
#[derive(Debug, Clone, PartialEq, Eq)]
pub struct FifoPath {
    path: Option<String>,
}

impl View for FifoPath {
    type V = Option<Seq<char>>;

    closed spec fn view(&self) -> Option<Seq<char>> {
        option_text(self.path)
    }
}

impl FifoPath {
    /// No path is chosen.
    pub fn new() -> (fifo: FifoPath)
        ensures
            fifo@ is None,
    {
        FifoPath { path: None }
    }

    /// Chooses `path`.
    pub fn set(&mut self, path: &str)
        ensures
            final(self)@ == Some(path@),
    {
        self.path = Some(path.to_string());
    }

    /// The path of the socket in the runtime directory of the user. It is
    /// the socket of some runtime directory, or of none: which one, the
    /// environment decides.
    pub fn default_path() -> (path: Result<String, ClientError>)
        ensures
            exists|dir: Option<Seq<char>>| result_view(path) == socket_of(dir),
    {
        let dir = runtime_dir();
        socket_path(dir)
    }

    /// The path that was chosen or, where none was, the default one.
    pub fn get(&self) -> (path: Result<String, ClientError>)
        ensures
            self@ is Some ==> result_view(path) == Ok::<Seq<char>, ClientErrorView>(self@->Some_0),
            self@ is None ==> exists|dir: Option<Seq<char>>| result_view(path) == socket_of(dir),
    {
        match &self.path {
            Some(path) => Ok(path.clone()),
            None => FifoPath::default_path(),
        }
    }
}

} // verus!
