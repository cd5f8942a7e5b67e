use vstd::prelude::*;

verus! {

/// The kinds of failure a handler can report.
#[derive(Debug)]
pub enum ErrorKind {
    /// A failure that came from the hosting runtime, with its message.
    Handler(String),
    /// Any other failure: its message, then the messages of its causes,
    /// outermost first.
    Failure(String, Vec<String>),
}

/// The error type shared by every handler and middleware of a chain.
#[derive(Debug)]
pub struct Error {
    pub kind: ErrorKind,
}

/// What an `Error` holds: whether it came from the hosting runtime, and the
/// chain of messages from the error itself down to its root cause.
pub struct ErrorView {
    pub from_runtime: bool,
    pub chain: Seq<Seq<char>>,
}

/// The views of a sequence of strings.
pub open spec fn strings_view(s: Seq<String>) -> Seq<Seq<char>> {
    s.map_values(|x: String| x@)
}

impl View for Error {
    type V = ErrorView;

    open spec fn view(&self) -> ErrorView {
        match self.kind {
            ErrorKind::Handler(m) => ErrorView { from_runtime: true, chain: seq![m@] },
            ErrorKind::Failure(m, causes) => ErrorView {
                from_runtime: false,
                chain: seq![m@] + strings_view(causes@),
            },
        }
    }
}

fn copy_strings(v: &Vec<String>) -> (r: Vec<String>)
    ensures
        r@ == v@,
{
    let r = v.clone();
    assert(r@ =~= v@);
    r
}

impl Error {
    /// An error that came from the hosting runtime.
    pub fn from_runtime(message: String) -> (r: Error)
        ensures
            r@ == (ErrorView { from_runtime: true, chain: seq![message@] }),
    {
        Error { kind: ErrorKind::Handler(message) }
    }

    /// A generic failure with its message and the messages of its causes.
    pub fn failure(message: String, causes: Vec<String>) -> (r: Error)
        ensures
            r@ == (ErrorView { from_runtime: false, chain: seq![message@] + strings_view(causes@) }),
    {
        Error { kind: ErrorKind::Failure(message, causes) }
    }

    /// The message of the error itself.
    pub fn message(&self) -> (r: String)
        ensures
            r@ == self@.chain[0],
    {
        match &self.kind {
            ErrorKind::Handler(m) => m.clone(),
            ErrorKind::Failure(m, _) => m.clone(),
        }
    }

    /// The message of the error's underlying cause, if it has one.
    pub fn cause(&self) -> (r: Option<String>)
        ensures
            r.is_some() == (self@.chain.len() > 1),
            r.is_some() ==> r.unwrap()@ == self@.chain[1],
    {
        match &self.kind {
            ErrorKind::Handler(_) => None,
            ErrorKind::Failure(_, causes) => {
                if causes.len() == 0 {
                    None
                } else {
                    Some(causes[0].clone())
                }
            },
        }
    }

    /// The messages from the error itself down to its root cause.
    pub fn cause_chain(&self) -> (r: Vec<String>)
        ensures
            strings_view(r@) == self@.chain,
    {
        let mut r: Vec<String> = Vec::new();
        r.push(self.message());
        if let ErrorKind::Failure(_, causes) = &self.kind {
            let mut i: usize = 0;
            while i < causes.len()
                invariant
                    i <= causes@.len(),
                    strings_view(r@) =~= seq![self@.chain[0]] + strings_view(causes@.take(i as int)),
                    self@.chain =~= seq![self@.chain[0]] + strings_view(causes@),
                decreases causes@.len() - i,
            {
                let ghost before = r@;
                r.push(causes[i].clone());
                assert(causes@.take(i + 1) =~= causes@.take(i as int).push(causes@[i as int]));
                assert(strings_view(r@) =~= strings_view(before).push(causes@[i as int]@));
                assert(strings_view(causes@.take(i + 1)) =~= strings_view(causes@.take(i as int)).push(
                    causes@[i as int]@,
                ));
                i += 1;
            }
            assert(causes@.take(causes@.len() as int) =~= causes@);
        }
        assert(strings_view(r@) =~= self@.chain);
        r
    }
}

impl From<ErrorKind> for Error {
    /// An error of the given kind.
    fn from(kind: ErrorKind) -> (r: Error) {
        Error { kind }
    }
}

impl vstd::std_specs::convert::FromSpecImpl<ErrorKind> for Error {
    open spec fn obeys_from_spec() -> bool {
        true
    }

    open spec fn from_spec(kind: ErrorKind) -> Error {
        Error { kind }
    }
}

impl Clone for Error {
    fn clone(&self) -> (r: Self)
        ensures
            r@ == self@,
    {
        match &self.kind {
            ErrorKind::Handler(m) => Error { kind: ErrorKind::Handler(m.clone()) },
            ErrorKind::Failure(m, causes) => Error { kind: ErrorKind::Failure(m.clone(), copy_strings(causes)) },
        }
    }
}

/// An error in the form the hosting runtime takes: the chain of messages from
/// the error down to its root cause.
#[derive(Debug)]
pub struct HostError {
    pub chain: Vec<String>,
}

impl View for HostError {
    type V = Seq<Seq<char>>;

    open spec fn view(&self) -> Seq<Seq<char>> {
        strings_view(self.chain@)
    }
}

impl HostError {
    /// The host's form of `error`; the messages and causes are kept as they are.
    pub fn from_error(error: &Error) -> (r: HostError)
        ensures
            r@ == error@.chain,
    {
        HostError { chain: error.cause_chain() }
    }

    /// The message of the error itself.
    pub fn message(&self) -> (r: String)
        requires
            self@.len() > 0,
        ensures
            r@ == self@[0],
    {
        self.chain[0].clone()
    }
}

} // verus!
