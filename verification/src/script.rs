//! Running a script against a fresh realm.

pub mod console;
pub mod global;
pub mod heap;
pub mod laws;
pub mod reflect;

use crate::error::Error;
use crate::script::console::call_accepted;
use crate::script::console::call_error;
use crate::script::console::console_log_native;
use crate::script::console::logged;
use crate::script::console::ConsoleMessageHandler;
use crate::script::console::StdoutHandler;
use crate::script::global::console_made;
use crate::script::global::create;
use crate::script::global::get_console_native;
use crate::script::global::launch_browser_native;
use crate::script::global::launch_requested;
use crate::script::heap::CallArgs;
use crate::script::heap::ClassId;
use crate::script::heap::Heap;
use crate::script::heap::HeapView;
use crate::script::heap::NativeOp;
use crate::script::heap::ObjectId;
use crate::script::heap::Value;
use crate::script::reflect::not_an_object;
use crate::script::reflect::HostValue;
use std::string::FromUtf8Error;
use vstd::prelude::*;
use vstd::utf8::decode_utf8;
use vstd::utf8::valid_utf8;

verus! {

/// Decodes `buffer` as UTF-8, by `String::from_utf8`: the text that the
/// bytes encode where they are valid UTF-8, and an error where they are not.
#[verifier::external_body]
fn string_from_utf8(buffer: Vec<u8>) -> (r: Result<String, FromUtf8Error>)
    ensures
        match r {
            Ok(text) => valid_utf8(buffer@) && text@ == decode_utf8(buffer@),
            Err(_) => !valid_utf8(buffer@),
        },
{
    String::from_utf8(buffer)
}

/// The text of a script from what reading it gave: the bytes decoded as
/// UTF-8, or the error of the read, or the error of the decoding.
pub fn load_script(contents: Result<Vec<u8>, std::io::Error>) -> (r: Result<String, Error>)
    ensures
        match contents {
            Err(e) => r matches Err(Error::IO(x)) && x == e,
            Ok(buffer) => if valid_utf8(buffer@) {
                r matches Ok(text) && text@ == decode_utf8(buffer@)
            } else {
                r matches Err(Error::InvalidString(_))
            },
        },
{
    let buffer = match contents {
        Ok(buffer) => buffer,
        Err(e) => {
            return Err(Error::from(e));
        },
    };
    match string_from_utf8(buffer) {
        Ok(script) => Ok(script),
        Err(e) => Err(Error::from(e)),
    }
}

/// The script that the process was asked to run, from the argument that
/// names it: an argument that was left out is an error.
pub fn script_argument<T>(argument: Option<T>) -> (r: Result<T, Error>)
    ensures
        match argument {
            Some(named) => r matches Ok(x) && x == named,
            None => r matches Err(Error::MissingArgument),
        },
{
    match argument {
        Some(named) => Ok(named),
        None => Err(Error::MissingArgument),
    }
}

/// The engine that runs scripts, before it is brought up. Bringing it up
/// consumes it and gives the running engine: so an engine is brought up
/// once at most, and nothing runs a script but an engine that was brought
/// up.
pub trait ScriptEngine: Sized {
    /// The engine once it is up.
    type Running: RunningEngine;

    /// Brings the engine up for the process. It does not return where the
    /// engine cannot be brought up.
    fn init(self) -> Self::Running;
}

/// The engine that runs scripts, once it is up.
pub trait RunningEngine {
    /// Evaluates `script`, named `filename` and counted from `line`, in the
    /// realm of `global`. Natives that the script reaches are run through
    /// [`call_native`] on `heap`.
    fn evaluate_script(
        &mut self,
        heap: &mut Heap<StdoutHandler>,
        global: ObjectId,
        script: String,
        filename: String,
        line: u32,
    ) -> (r: Result<(), ()>)
        requires
            old(heap)@.wf(),
            old(heap)@.settled(),
            old(heap)@.realm_ready(global),
    ;
}

/// The engine of a process: down until the first script gets past loading,
/// and up from then on, however many scripts are run.
pub struct Embedding<E: ScriptEngine> {
    down: Option<E>,
    up: Option<E::Running>,
}

impl<E: ScriptEngine> Embedding<E> {
    /// The engine while it is down.
    pub closed spec fn down(&self) -> Option<E> {
        self.down
    }

    /// The engine once it is up.
    pub closed spec fn up(&self) -> Option<E::Running> {
        self.up
    }

    /// Whether the engine was brought up.
    pub open spec fn initialized(&self) -> bool {
        self.up() is Some
    }

    /// The engine is either down or up.
    pub open spec fn wf(&self) -> bool {
        self.down() is Some <==> self.up() is None
    }

    /// An embedding of `engine`, which is down.
    pub fn new(engine: E) -> (embedding: Embedding<E>)
        ensures
            embedding.wf(),
            embedding.down() == Some(engine),
            embedding.up() is None,
    {
        Embedding { down: Some(engine), up: None }
    }

    /// Whether the engine was brought up.
    pub fn is_initialized(&self) -> (b: bool)
        ensures
            b == self.initialized(),
    {
        self.up.is_some()
    }

    /// The engine while it is down.
    pub fn engine(&self) -> (engine: Option<&E>)
        ensures
            match engine {
                Some(e) => self.down() == Some(*e),
                None => self.down() is None,
            },
    {
        self.down.as_ref()
    }

    /// The engine once it is up.
    pub fn running(&self) -> (engine: Option<&E::Running>)
        ensures
            match engine {
                Some(e) => self.up() == Some(*e),
                None => self.up() is None,
            },
    {
        self.up.as_ref()
    }

    /// Brings the engine up unless that was done before: an engine that is
    /// up is left as it is, and one that is down is consumed by its
    /// bring-up.
    pub fn init_once(&mut self)
        requires
            old(self).wf(),
        ensures
            final(self).wf(),
            final(self).initialized(),
            old(self).initialized() ==> *final(self) == *old(self),
    {
        if let Some(engine) = self.down.take() {
            self.up = Some(engine.init());
        }
    }
}

/// What running a script ends in, from what its evaluation ended in.
pub fn evaluation_result(outcome: Result<(), ()>) -> (r: Result<(), Error>)
    ensures
        outcome is Ok ==> r is Ok,
        outcome is Err ==> r matches Err(Error::Error),
{
    match outcome {
        Ok(_) => Ok(()),
        Err(e) => Err(Error::from(e)),
    }
}

/// What is handed to the engine for one run: a fresh realm with its
/// global object, and the script with its name and first line number.
pub struct Evaluation {
    pub heap: Heap<StdoutHandler>,
    pub global: ObjectId,
    pub script: String,
    pub filename: String,
    pub line: u32,
}

/// `h` holds one realm and nothing else, `global` is its global object,
/// and its holder has no request pending.
pub open spec fn fresh_realm(h: HeapView<StdoutHandler>, global: ObjectId) -> bool {
    &&& global == 0
    &&& h.contains(global)
    &&& h.objects[global as int].private matches Some(HostValue::Global(holder))
    &&& holder.pending() == Seq::<Seq<char>>::empty()
    &&& h == HeapView::<StdoutHandler>::empty().with_realm(holder)
}

/// Makes ready what the engine is to evaluate, from what reading the
/// script gave as `contents` and from its name `path`.
///
/// A script that could not be read ends in the error of the read, and one
/// that is no UTF-8 text in the error of the decoding; the engine is not
/// touched for either. For any other script the engine is brought up,
/// unless it was, and a fresh realm is made for the decoded text.
pub fn prepare<E: ScriptEngine>(
    embedding: &mut Embedding<E>,
    contents: Result<Vec<u8>, std::io::Error>,
    path: &str,
) -> (r: Result<Evaluation, Error>)
    requires
        old(embedding).wf(),
    ensures
        final(embedding).wf(),
        match contents {
            Err(e) => {
                &&& (r matches Err(Error::IO(x)) && x == e)
                &&& *final(embedding) == *old(embedding)
            },
            Ok(buffer) => if valid_utf8(buffer@) {
                &&& (r matches Ok(evaluation) && {
                    &&& evaluation.script@ == decode_utf8(buffer@)
                    &&& evaluation.filename@ == path@
                    &&& evaluation.line == 0
                    &&& fresh_realm(evaluation.heap@, evaluation.global)
                    &&& evaluation.heap@.wf()
                    &&& evaluation.heap@.settled()
                    &&& evaluation.heap@.realm_ready(evaluation.global)
                })
                &&& final(embedding).initialized()
                &&& old(embedding).initialized() ==> *final(embedding) == *old(embedding)
            } else {
                &&& (r matches Err(Error::InvalidString(_)))
                &&& *final(embedding) == *old(embedding)
            },
        },
{
    let script = match load_script(contents) {
        Ok(script) => script,
        Err(e) => {
            return Err(e);
        },
    };
    embedding.init_once();
    let mut heap = Heap::<StdoutHandler>::new();
    let global = create(&mut heap);
    let path_string = path.to_owned();
    Ok(Evaluation { heap, global, script, filename: path_string, line: 0 })
}

/// Runs the script that reading gave as `contents`, under the name `path`:
/// in a fresh realm whose console writes to standard output.
///
/// What [`prepare`] makes ready is handed to the engine, and the run ends
/// as [`evaluation_result`] says of the evaluation. A script that cannot be
/// made ready ends in the error of [`prepare`].
pub fn run_script<E: ScriptEngine>(
    embedding: &mut Embedding<E>,
    contents: Result<Vec<u8>, std::io::Error>,
    path: &str,
) -> (r: Result<(), Error>)
    requires
        old(embedding).wf(),
    ensures
        final(embedding).wf(),
        match contents {
            Err(e) => {
                &&& (r matches Err(Error::IO(x)) && x == e)
                &&& *final(embedding) == *old(embedding)
            },
            Ok(buffer) => if valid_utf8(buffer@) {
                &&& (r is Ok || r matches Err(Error::Error))
                &&& final(embedding).initialized()
            } else {
                &&& (r matches Err(Error::InvalidString(_)))
                &&& *final(embedding) == *old(embedding)
            },
        },
{
    let evaluation = match prepare(embedding, contents, path) {
        Ok(evaluation) => evaluation,
        Err(e) => {
            return Err(e);
        },
    };
    let mut heap = evaluation.heap;
    let mut engine = match embedding.up.take() {
        Some(engine) => engine,
        None => vstd::pervasive::unreached(),
    };
    let outcome = engine.evaluate_script(
        &mut heap,
        evaluation.global,
        evaluation.script,
        evaluation.filename,
        evaluation.line,
    );
    embedding.up = Some(engine);
    evaluation_result(outcome)
}

/// Whether the native `op` accepts a call with `args`.
pub open spec fn native_accepted<H>(h: HeapView<H>, op: NativeOp, args: CallArgs) -> bool {
    match op {
        NativeOp::ConsoleLog => call_accepted(h, args, ClassId::Console),
        NativeOp::LaunchBrowser => call_accepted(h, args, ClassId::Global),
        NativeOp::GetConsole => args.this matches Value::Object(scope) && h.instance_of(
            scope,
            ClassId::Global,
        ),
    }
}

/// The message of the type error with which the native `op` answers a call
/// that it does not accept.
pub open spec fn native_error<H>(h: HeapView<H>, op: NativeOp, args: CallArgs) -> Seq<char> {
    match op {
        NativeOp::ConsoleLog => call_error(h, args, ClassId::Console),
        NativeOp::LaunchBrowser => call_error(h, args, ClassId::Global),
        NativeOp::GetConsole => not_an_object(),
    }
}

/// What the native `op` has done in a call that it accepted, and what the
/// result slot holds after it.
pub open spec fn native_done<H: ConsoleMessageHandler>(
    before: HeapView<H>,
    after: HeapView<H>,
    op: NativeOp,
    args: CallArgs,
    result: Value,
) -> bool {
    match op {
        NativeOp::ConsoleLog => logged(before, after, args) && result == args.rval,
        NativeOp::LaunchBrowser => launch_requested(before, after, args) && result == args.rval,
        NativeOp::GetConsole => console_made(before, after, args, result),
    }
}

/// Runs the native `op` for the engine: the one way from an entry of a
/// native table to host logic. True where the call was accepted; false
/// where it has thrown, and then the type error is pending on the heap.
pub fn call_native<H: ConsoleMessageHandler + Default>(
    heap: &mut Heap<H>,
    op: NativeOp,
    args: &mut CallArgs,
) -> (ok: bool)
    requires
        old(heap)@.wf(),
        old(heap)@.settled(),
    ensures
        ok == native_accepted(old(heap)@, op, *old(args)),
        ok ==> native_done(old(heap)@, final(heap)@, op, *old(args), final(args).rval),
        !ok ==> final(heap)@ == old(heap)@.throw(native_error(old(heap)@, op, *old(args)))
            && final(args).rval == old(args).rval,
        final(args).this == old(args).this,
        final(args).argv == old(args).argv,
        final(heap)@.wf(),
        final(heap)@.settled(),
{
    match op {
        NativeOp::ConsoleLog => console_log_native(heap, args),
        NativeOp::GetConsole => get_console_native(heap, args),
        NativeOp::LaunchBrowser => launch_browser_native(heap, args),
    }
}

} // verus!
