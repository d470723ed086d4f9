//! The compiler session: one native program handle and its life cycle.

use crate::buffer::{
    read_sized, read_sized_outcome, string_from_utf8, zeroed, Artifact, Interpretation, Output,
    OutputError, OutputView,
};
use crate::error::{classify, classify_spec, NvrtcError, NvrtcResult};
use vstd::pervasive::unreached;
use vstd::prelude::*;
use vstd::utf8::{decode_utf8, valid_utf8};

verus! {

/// The handle value that stands for "no native program".
pub const NULL_HANDLE: u64 = 0;

/// The name under which a program is created when the caller gives none.
pub const DEFAULT_PROGRAM_NAME: &'static str = "default_program";

/// Where a session is in its life.
#[derive(Clone, Copy, Debug, PartialEq, Eq, Structural)]
pub enum SessionState {
    /// The handle is live and no compile has been attempted.
    Created,
    /// The handle is live and a compile has returned, with success or not.
    Compiled,
    /// The handle has been given up; the session owns nothing.
    Destroyed,
}

/// What a session is, as plain values.
pub struct ProgramView {
    /// The native handle, or `NULL_HANDLE` once it has been given up.
    pub handle: u64,
    /// Whether a compile has been attempted.
    pub compiled: bool,
    /// The name expressions registered so far, in the order of registration.
    pub names: Seq<Seq<char>>,
}

impl ProgramView {
    /// The state that these values amount to.
    pub open spec fn state(self) -> SessionState {
        if self.handle == NULL_HANDLE {
            SessionState::Destroyed
        } else if self.compiled {
            SessionState::Compiled
        } else {
            SessionState::Created
        }
    }

    /// The session that `create` has just made around `handle`.
    pub open spec fn fresh(handle: u64) -> ProgramView {
        ProgramView { handle, compiled: false, names: Seq::empty() }
    }

    /// This session after the native compiler has answered the registration
    /// of `expr` with `status`: the expression is registered on success, and
    /// nothing changes on a failure.
    pub open spec fn after_add_expr(self, expr: Seq<char>, status: u32) -> ProgramView {
        if classify_spec(status) is Ok {
            ProgramView { names: self.names.push(expr), ..self }
        } else {
            self
        }
    }

    /// This session after a compile has returned, with whatever status.
    pub open spec fn after_compile(self) -> ProgramView {
        ProgramView { compiled: true, ..self }
    }

    /// This session after its handle has been given up.
    pub open spec fn after_destroy(self) -> ProgramView {
        ProgramView { handle: NULL_HANDLE, ..self }
    }
}

/// A compile attempt on a live session leads to `Compiled`, whether the
/// compile succeeds or fails, and a registration changes no state.
pub proof fn lemma_compile_reaches_compiled(session: ProgramView, expr: Seq<char>, status: u32)
    ensures
        session.state() != SessionState::Destroyed ==> session.after_compile().state()
            == SessionState::Compiled,
        session.after_add_expr(expr, status).state() == session.state(),
        session.after_compile().names == session.names,
        session.after_compile().handle == session.handle,
{
}

/// Every session can be destroyed, in whatever state it is, and `Destroyed` is
/// final: destroying again changes nothing, and neither a registration nor a
/// compile leads out of it.
pub proof fn lemma_destroyed_is_final(session: ProgramView, expr: Seq<char>, status: u32)
    ensures
        session.after_destroy().state() == SessionState::Destroyed,
        session.after_destroy().after_destroy() == session.after_destroy(),
        session.state() == SessionState::Destroyed ==> {
            &&& session.after_destroy() == session
            &&& session.after_compile().state() == SessionState::Destroyed
            &&& session.after_add_expr(expr, status).state() == SessionState::Destroyed
        },
        ProgramView::fresh(session.handle).after_destroy().state() == SessionState::Destroyed,
{
}

/// A compiler session. It owns one native program handle, which it gives up
/// once, in `destroy`.
///
/// The native handle is held as its address. Every method that reaches the
/// native compiler takes the native call as a closure, hands it this address
/// and classifies the status that comes back.
///
/// A session cannot be copied. It does not destroy itself when it goes out of
/// scope, since it does not hold the native calls: whoever holds them ties
/// `destroy` to the end of the session's scope.
#[derive(Debug)]
pub struct NvrtcProgram {
    handle: u64,
    compiled: bool,
    names: Vec<String>,
}

impl View for NvrtcProgram {
    type V = ProgramView;

    closed spec fn view(&self) -> ProgramView {
        ProgramView {
            handle: self.handle,
            compiled: self.compiled,
            names: self.names@.map_values(|name: String| name@),
        }
    }
}

/// The name that a program is created under.
pub open spec fn program_name(name: Option<&str>) -> Seq<char> {
    match name {
        Some(name) => name@,
        None => DEFAULT_PROGRAM_NAME@,
    }
}

/// What a session's creation yields once the native call has replied.
pub open spec fn created_spec(status: u32, handle: u64) -> NvrtcResult<ProgramView> {
    match classify_spec(status) {
        Ok(_) => Ok(ProgramView::fresh(handle)),
        Err(e) => Err(e),
    }
}

/// What a size query yields once the native call has replied.
pub open spec fn size_spec(status: u32, size: usize) -> NvrtcResult<usize> {
    match classify_spec(status) {
        Ok(_) => Ok(size),
        Err(e) => Err(e),
    }
}

/// What a name lookup yields once the native call has replied with a status
/// and the bytes of the lowered name, copied out without their terminator.
pub open spec fn lowered_name_spec(status: u32, name: Seq<u8>) -> Result<Seq<char>, OutputError> {
    match classify_spec(status) {
        Err(e) => Err(OutputError::Native(e)),
        Ok(_) => if valid_utf8(name) {
            Ok(decode_utf8(name))
        } else {
            Err(OutputError::Decoding)
        },
    }
}

/// The view of a created session or of the failure to create one.
pub open spec fn program_result_view(r: NvrtcResult<NvrtcProgram>) -> NvrtcResult<ProgramView> {
    match r {
        Ok(program) => Ok(program@),
        Err(e) => Err(e),
    }
}

/// The view of a text or of the failure to read one.
pub open spec fn text_result_view(r: Result<String, OutputError>) -> Result<
    Seq<char>,
    OutputError,
> {
    match r {
        Ok(text) => Ok(text@),
        Err(e) => Err(e),
    }
}

/// A text result as the result of a read.
pub open spec fn text_as_output(r: Result<String, OutputError>) -> Result<
    OutputView,
    OutputError,
> {
    match r {
        Ok(text) => Ok(OutputView::Text(text@)),
        Err(e) => Err(e),
    }
}

/// A bytes result as the result of a read.
pub open spec fn bytes_as_output(r: Result<Vec<u8>, OutputError>) -> Result<
    OutputView,
    OutputError,
> {
    match r {
        Ok(bytes) => Ok(OutputView::Bytes(bytes@)),
        Err(e) => Err(e),
    }
}

impl NvrtcProgram {
    /// The native handle, or `NULL_HANDLE` once the session is destroyed.
    pub fn handle(&self) -> (handle: u64)
        ensures
            handle == self@.handle,
    {
        self.handle
    }

    /// Where this session is in its life.
    pub fn state(&self) -> (state: SessionState)
        ensures
            state == self@.state(),
    {
        if self.handle == NULL_HANDLE {
            SessionState::Destroyed
        } else if self.compiled {
            SessionState::Compiled
        } else {
            SessionState::Created
        }
    }

    /// The name expressions registered so far, in the order of registration.
    pub fn name_expressions(&self) -> (names: &Vec<String>)
        ensures
            names@.map_values(|name: String| name@) == self@.names,
    {
        &self.names
    }

    /// Creates a session for the program `src`.
    ///
    /// `headers` holds the sources of the headers that `src` may include and
    /// `names` the file names under which it includes them, one for each. Where
    /// the two differ in length the creation fails with `InvalidInput` and the
    /// native compiler is not called: `create` is then not even required to
    /// accept a call. Otherwise `create` is called once, with the source, the
    /// program's name (`DEFAULT_PROGRAM_NAME` where none is given), the headers
    /// and their names. A failure that it reports is returned and no session
    /// exists; on success the session holds the handle that came back, in state
    /// `Created`, with no name expression registered.
    pub fn new<F>(
        src: &str,
        name: Option<&str>,
        headers: &[&str],
        names: &[&str],
        create: F,
    ) -> (r: NvrtcResult<NvrtcProgram>) where F: FnOnce(&str, &str, &[&str], &[&str]) -> (u32, u64)
        requires
            headers@.len() == names@.len() ==> forall|program: &str|
                program@ == program_name(name) ==> #[trigger] create.requires(
                    (src, program, headers, names),
                ),
        ensures
            headers@.len() != names@.len() ==> program_result_view(r) == Err::<
                ProgramView,
                NvrtcError,
            >(NvrtcError::InvalidInput),
            headers@.len() == names@.len() ==> exists|program: &str, reply: (u32, u64)|
                {
                    &&& program@ == program_name(name)
                    &&& #[trigger] create.ensures((src, program, headers, names), reply)
                    &&& program_result_view(r) == created_spec(reply.0, reply.1)
                },
    {
        if headers.len() != names.len() {
            return Err(NvrtcError::InvalidInput);
        }
        let program = match name {
            Some(name) => name,
            None => DEFAULT_PROGRAM_NAME,
        };
        let reply = create(src, program, headers, names);
        match classify(reply.0) {
            Err(e) => Err(e),
            Ok(_) => {
                let created = NvrtcProgram { handle: reply.1, compiled: false, names: Vec::new() };
                assert(created@.names =~= Seq::empty());
                Ok(created)
            },
        }
    }

    /// Registers the name expression `expr`, so that its lowered name can be
    /// asked for once the program is compiled.
    ///
    /// The expression is handed to the native compiler whatever the state of
    /// the session; after a compile the native compiler refuses it. On success
    /// the expression is appended to those registered, duplicates included. On
    /// a failure the session is unchanged.
    pub fn add_expr<F>(&mut self, expr: &str, register: F) -> (r: NvrtcResult<()>) where
        F: FnOnce(u64, &str) -> u32,

        requires
            register.requires((old(self)@.handle, expr)),
        ensures
            exists|status: u32|
                {
                    &&& #[trigger] register.ensures((old(self)@.handle, expr), status)
                    &&& r == classify_spec(status)
                    &&& final(self)@ == old(self)@.after_add_expr(expr@, status)
                },
    {
        let status = register(self.handle, expr);
        let r = classify(status);
        if r.is_ok() {
            let ghost before = self.names@;
            self.names.push(expr.to_owned());
            assert(self.names@.map_values(|name: String| name@) =~= before.map_values(
                |name: String| name@,
            ).push(expr@));
        }
        r
    }

    /// Compiles the program with the options `opts`.
    ///
    /// Whatever the native compiler reports, the session is `Compiled`
    /// afterwards: the log of a failed compile can be read like that of a
    /// successful one. Whether the compile succeeded is not kept; the caller
    /// has it in the result.
    pub fn compile<F>(&mut self, opts: &[&str], compile: F) -> (r: NvrtcResult<()>) where
        F: FnOnce(u64, &[&str]) -> u32,

        requires
            compile.requires((old(self)@.handle, opts)),
        ensures
            exists|status: u32|
                {
                    &&& #[trigger] compile.ensures((old(self)@.handle, opts), status)
                    &&& r == classify_spec(status)
                },
            final(self)@ == old(self)@.after_compile(),
    {
        let status = compile(self.handle, opts);
        self.compiled = true;
        classify(status)
    }

    /// Asks the native compiler for the size of `artifact` in bytes.
    fn size_of<S>(&self, artifact: Artifact, size_query: S) -> (r: NvrtcResult<usize>) where
        S: FnOnce(u64, Artifact) -> (u32, usize),

        requires
            size_query.requires((self@.handle, artifact)),
        ensures
            exists|reply: (u32, usize)|
                {
                    &&& #[trigger] size_query.ensures((self@.handle, artifact), reply)
                    &&& r == size_spec(reply.0, reply.1)
                },
    {
        let reply = size_query(self.handle, artifact);
        match classify(reply.0) {
            Ok(_) => Ok(reply.1),
            Err(e) => Err(e),
        }
    }

    /// The size of the compiled PTX in bytes, its terminator included.
    pub fn get_ptx_size<S>(&self, size_query: S) -> (r: NvrtcResult<usize>) where
        S: FnOnce(u64, Artifact) -> (u32, usize),

        requires
            size_query.requires((self@.handle, Artifact::Ptx)),
        ensures
            exists|reply: (u32, usize)|
                {
                    &&& #[trigger] size_query.ensures((self@.handle, Artifact::Ptx), reply)
                    &&& r == size_spec(reply.0, reply.1)
                },
    {
        self.size_of(Artifact::Ptx, size_query)
    }

    /// The compiled PTX as text.
    ///
    /// Nothing is checked before the native compiler is asked: without a
    /// successful compile it reports a failure, and that failure is returned.
    pub fn get_ptx<S, F>(&self, size_query: S, fill: F) -> (r: Result<String, OutputError>) where
        S: FnOnce(u64, Artifact) -> (u32, usize),
        F: FnOnce(u64, Artifact, Vec<u8>) -> (u32, Vec<u8>),

        requires
            size_query.requires((self@.handle, Artifact::Ptx)),
            forall|buffer: Vec<u8>|
                buffer@ == zeroed(buffer@.len()) ==> #[trigger] fill.requires(
                    (self@.handle, Artifact::Ptx, buffer),
                ),
        ensures
            read_sized_outcome(
                self@.handle,
                Artifact::Ptx,
                size_query,
                fill,
                Interpretation::Text,
                text_as_output(r),
            ),
    {
        match read_sized(self.handle, Artifact::Ptx, size_query, fill, Interpretation::Text) {
            Ok(Output::Text(text)) => Ok(text),
            Ok(Output::Bytes(_)) => {
                proof {
                    assert(false);
                }
                unreached()
            },
            Err(e) => Err(e),
        }
    }

    /// The size of the compiled binary module in bytes.
    pub fn get_cubin_size<S>(&self, size_query: S) -> (r: NvrtcResult<usize>) where
        S: FnOnce(u64, Artifact) -> (u32, usize),

        requires
            size_query.requires((self@.handle, Artifact::Cubin)),
        ensures
            exists|reply: (u32, usize)|
                {
                    &&& #[trigger] size_query.ensures((self@.handle, Artifact::Cubin), reply)
                    &&& r == size_spec(reply.0, reply.1)
                },
    {
        self.size_of(Artifact::Cubin, size_query)
    }

    /// The compiled binary module: every byte that the native compiler wrote.
    ///
    /// Nothing is checked before the native compiler is asked: without a
    /// successful compile it reports a failure, and that failure is returned.
    pub fn get_cubin<S, F>(&self, size_query: S, fill: F) -> (r: Result<
        Vec<u8>,
        OutputError,
    >) where
        S: FnOnce(u64, Artifact) -> (u32, usize),
        F: FnOnce(u64, Artifact, Vec<u8>) -> (u32, Vec<u8>),

        requires
            size_query.requires((self@.handle, Artifact::Cubin)),
            forall|buffer: Vec<u8>|
                buffer@ == zeroed(buffer@.len()) ==> #[trigger] fill.requires(
                    (self@.handle, Artifact::Cubin, buffer),
                ),
        ensures
            read_sized_outcome(
                self@.handle,
                Artifact::Cubin,
                size_query,
                fill,
                Interpretation::Bytes,
                bytes_as_output(r),
            ),
    {
        match read_sized(self.handle, Artifact::Cubin, size_query, fill, Interpretation::Bytes) {
            Ok(Output::Bytes(bytes)) => Ok(bytes),
            Ok(Output::Text(_)) => {
                proof {
                    assert(false);
                }
                unreached()
            },
            Err(e) => Err(e),
        }
    }

    /// The size of the diagnostic log in bytes, its terminator included.
    pub fn get_log_size<S>(&self, size_query: S) -> (r: NvrtcResult<usize>) where
        S: FnOnce(u64, Artifact) -> (u32, usize),

        requires
            size_query.requires((self@.handle, Artifact::Log)),
        ensures
            exists|reply: (u32, usize)|
                {
                    &&& #[trigger] size_query.ensures((self@.handle, Artifact::Log), reply)
                    &&& r == size_spec(reply.0, reply.1)
                },
    {
        self.size_of(Artifact::Log, size_query)
    }

    /// The diagnostic log of the last compile attempt as text.
    ///
    /// The log can be read after a failed compile as after a successful one. A
    /// log of size zero is the empty text.
    pub fn get_log<S, F>(&self, size_query: S, fill: F) -> (r: Result<String, OutputError>) where
        S: FnOnce(u64, Artifact) -> (u32, usize),
        F: FnOnce(u64, Artifact, Vec<u8>) -> (u32, Vec<u8>),

        requires
            size_query.requires((self@.handle, Artifact::Log)),
            forall|buffer: Vec<u8>|
                buffer@ == zeroed(buffer@.len()) ==> #[trigger] fill.requires(
                    (self@.handle, Artifact::Log, buffer),
                ),
        ensures
            read_sized_outcome(
                self@.handle,
                Artifact::Log,
                size_query,
                fill,
                Interpretation::Text,
                text_as_output(r),
            ),
    {
        match read_sized(self.handle, Artifact::Log, size_query, fill, Interpretation::Text) {
            Ok(Output::Text(text)) => Ok(text),
            Ok(Output::Bytes(_)) => {
                proof {
                    assert(false);
                }
                unreached()
            },
            Err(e) => Err(e),
        }
    }

    /// The lowered name of the name expression `expr`.
    ///
    /// `lookup` makes the native call and copies the name out of the memory of
    /// the native session, without its terminator, before it returns: the
    /// session never sees the address. The native compiler knows the lowered
    /// name only after a successful compile and only of an expression that was
    /// registered before it; otherwise it reports a failure, which is returned.
    pub fn get_name<F>(&self, expr: &str, lookup: F) -> (r: Result<String, OutputError>) where
        F: FnOnce(u64, &str) -> (u32, Vec<u8>),

        requires
            lookup.requires((self@.handle, expr)),
        ensures
            exists|reply: (u32, Vec<u8>)|
                {
                    &&& #[trigger] lookup.ensures((self@.handle, expr), reply)
                    &&& text_result_view(r) == lowered_name_spec(reply.0, reply.1@)
                },
    {
        let reply = lookup(self.handle, expr);
        match classify(reply.0) {
            Err(e) => Err(OutputError::Native(e)),
            Ok(_) => match string_from_utf8(reply.1) {
                Some(name) => Ok(name),
                None => Err(OutputError::Decoding),
            },
        }
    }

    /// Gives up the native handle.
    ///
    /// On a live session the handle is first cleared and then handed to
    /// `release`, the native call that destroys the program; what that call
    /// reports is returned, and a caller should treat a failure as fatal. On a
    /// destroyed session nothing is done and `release` is not called: it is
    /// then not even required to accept a call. So a handle is released once,
    /// however often and in whatever state the session is destroyed.
    pub fn destroy<F>(&mut self, release: F) -> (r: NvrtcResult<()>) where F: FnOnce(u64) -> u32
        requires
            old(self)@.handle != NULL_HANDLE ==> release.requires((old(self)@.handle,)),
        ensures
            final(self)@ == old(self)@.after_destroy(),
            old(self)@.handle == NULL_HANDLE ==> r == Ok::<(), NvrtcError>(()),
            old(self)@.handle != NULL_HANDLE ==> exists|status: u32|
                {
                    &&& #[trigger] release.ensures((old(self)@.handle,), status)
                    &&& r == classify_spec(status)
                },
    {
        if self.handle == NULL_HANDLE {
            return Ok(());
        }
        let handle = self.handle;
        self.handle = NULL_HANDLE;
        classify(release(handle))
    }
}

} // verus!
