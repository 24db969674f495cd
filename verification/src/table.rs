//! Extension interface table: the functions a guest may ask the host for.
//!
//! Each entry gives a function its name, its numeric id, the shape of its
//! argument and of its return value, and two flags that say how its reply
//! is read. The table is fixed; its ids are distinct and none is zero.

use crate::codec::{bytes_decoding, bytes_encoding, encode_u32, u32_decoding, u32_encoding, Custom};
use crate::status::{status_meaning, ExtensionError, ProtocolViolation};
use vstd::prelude::*;

verus! {

/// The name of an extension function.
#[derive(Clone, Copy, Debug, PartialEq, Eq, Structural)]
pub enum Method {
    /// Store a number in the host's state.
    WriteToStorage,
    /// Hand the host a value of variable size, which it may reject.
    CustomTypeWithResult,
    /// Have the host call the guest back at a later point.
    ScheduleCall,
}

/// The shape of a value on the wire.
#[derive(Clone, Copy, Debug, PartialEq, Eq, Structural)]
pub enum Shape {
    /// Nothing: no bytes.
    Unit,
    /// A `u32`: four bytes, known from the type alone.
    U32,
    /// A vector of bytes: as long as its contents make it.
    Bytes,
}

/// One row of the table.
#[derive(Clone, Copy, Debug, PartialEq, Eq, Structural)]
pub struct ExtensionEntry {
    pub method: Method,
    pub func_id: u32,
    /// The shape of the argument.
    pub input: Shape,
    /// The shape of the value returned on success.
    pub output: Shape,
    /// Whether the function reports success or failure to its caller.
    pub returns_result: bool,
    /// Whether a nonzero status code is turned into an error before the
    /// caller sees the reply. Where it is not, the caller gets the code
    /// as it came.
    pub handle_status: bool,
}

/// A request ready to cross the boundary.
#[derive(Debug, PartialEq, Eq)]
pub struct ExtensionCall {
    pub func_id: u32,
    /// The encoded argument.
    pub input: Vec<u8>,
}

/// What the guest makes of the host's reply.
#[derive(Clone, Copy, Debug, PartialEq, Eq)]
pub enum Reply {
    /// The status code, passed through unread.
    Unhandled(u32),
    /// The outcome that the status code stands for.
    Handled(Result<(), ExtensionError>),
}

/// The table itself.
pub open spec fn table() -> Seq<ExtensionEntry> {
    seq![
        ExtensionEntry {
            method: Method::WriteToStorage,
            func_id: 1,
            input: Shape::U32,
            output: Shape::Unit,
            returns_result: false,
            handle_status: false,
        },
        ExtensionEntry {
            method: Method::CustomTypeWithResult,
            func_id: 2,
            input: Shape::Bytes,
            output: Shape::Unit,
            returns_result: true,
            handle_status: true,
        },
        ExtensionEntry {
            method: Method::ScheduleCall,
            func_id: 3,
            input: Shape::U32,
            output: Shape::Unit,
            returns_result: true,
            handle_status: true,
        },
    ]
}

/// The row of a function, by its name.
pub open spec fn entry_of(method: Method) -> ExtensionEntry {
    match method {
        Method::WriteToStorage => table()[0],
        Method::CustomTypeWithResult => table()[1],
        Method::ScheduleCall => table()[2],
    }
}

/// Whether some row of the table has this id.
pub open spec fn is_registered(func_id: u32) -> bool {
    exists|i: int| 0 <= i < table().len() && #[trigger] table()[i].func_id == func_id
}

/// Whether `wire` is the encoding of a value of the given shape.
pub open spec fn shape_admits(shape: Shape, wire: Seq<u8>) -> bool {
    match shape {
        Shape::Unit => wire.len() == 0,
        Shape::U32 => u32_decoding(wire) is Some,
        Shape::Bytes => bytes_decoding(wire) is Some,
    }
}

/// How the reply to a call of `method` is read.
pub open spec fn reply_meaning(method: Method, status_code: u32) -> Result<
    Reply,
    ProtocolViolation,
> {
    if !entry_of(method).handle_status {
        Ok(Reply::Unhandled(status_code))
    } else {
        match status_meaning(status_code) {
            Some(outcome) => Ok(Reply::Handled(outcome)),
            None => Err(ProtocolViolation::UnknownStatusCode(status_code)),
        }
    }
}

impl Shape {
    /// The number of bytes a value of this shape takes, where the shape
    /// alone fixes it.
    pub open spec fn fixed_len(self) -> Option<nat> {
        match self {
            Shape::Unit => Some(0),
            Shape::U32 => Some(4),
            Shape::Bytes => None,
        }
    }

    /// The number of bytes a value of this shape takes, where the shape
    /// alone fixes it. A shape without one is read only after asking the
    /// channel how much input there is.
    pub fn encoded_len(self) -> (len: Option<usize>)
        ensures
            len is Some <==> self.fixed_len() is Some,
            len matches Some(n) ==> self.fixed_len() == Some(n as nat),
    {
        match self {
            Shape::Unit => Some(0),
            Shape::U32 => Some(4),
            Shape::Bytes => None,
        }
    }
}

/// The guest's handle on the extension: the table, built once, and the
/// functions it declares.
#[derive(Debug)]
pub struct MyChainExtension {
    entries: Vec<ExtensionEntry>,
}

impl View for MyChainExtension {
    type V = Seq<ExtensionEntry>;

    closed spec fn view(&self) -> Seq<ExtensionEntry> {
        self.entries@
    }
}

impl MyChainExtension {
    #[verifier::type_invariant]
    spec fn holds_table(&self) -> bool {
        self.entries@ == table()
    }

    /// Builds the table.
    pub fn new() -> (extension: MyChainExtension)
        ensures
            extension@ == table(),
    {
        let mut entries: Vec<ExtensionEntry> = Vec::new();
        entries.push(
            ExtensionEntry {
                method: Method::WriteToStorage,
                func_id: 1,
                input: Shape::U32,
                output: Shape::Unit,
                returns_result: false,
                handle_status: false,
            },
        );
        entries.push(
            ExtensionEntry {
                method: Method::CustomTypeWithResult,
                func_id: 2,
                input: Shape::Bytes,
                output: Shape::Unit,
                returns_result: true,
                handle_status: true,
            },
        );
        entries.push(
            ExtensionEntry {
                method: Method::ScheduleCall,
                func_id: 3,
                input: Shape::U32,
                output: Shape::Unit,
                returns_result: true,
                handle_status: true,
            },
        );
        assert(entries@ =~= table());
        MyChainExtension { entries }
    }

    /// The rows of the table, in order.
    pub fn entries(&self) -> (entries: &Vec<ExtensionEntry>)
        ensures
            entries@ == self@,
            self@ == table(),
    {
        proof {
            use_type_invariant(self);
        }
        &self.entries
    }

    /// The row of a function, by its name.
    pub fn entry(&self, method: Method) -> (entry: ExtensionEntry)
        ensures
            entry == entry_of(method),
            entry.method == method,
    {
        proof {
            use_type_invariant(self);
        }
        match method {
            Method::WriteToStorage => self.entries[0],
            Method::CustomTypeWithResult => self.entries[1],
            Method::ScheduleCall => self.entries[2],
        }
    }

    /// The row with the given id, if the table has one.
    pub fn lookup(&self, func_id: u32) -> (found: Option<ExtensionEntry>)
        ensures
            found is Some <==> is_registered(func_id),
            found matches Some(entry) ==> entry.func_id == func_id && entry == entry_of(
                entry.method,
            ),
    {
        proof {
            use_type_invariant(self);
        }
        let mut i: usize = 0;
        while i < self.entries.len()
            invariant
                self.entries@ == table(),
                i <= self.entries@.len(),
                forall|j: int| 0 <= j < i ==> (#[trigger] table()[j]).func_id != func_id,
            decreases self.entries@.len() - i,
        {
            let entry = self.entries[i];
            if entry.func_id == func_id {
                assert(table()[i as int].func_id == func_id);
                return Some(entry);
            }
            i += 1;
        }
        None
    }

    /// The request that stores `value` in the host's state.
    pub fn write_to_storage(&self, value: u32) -> (call: ExtensionCall)
        ensures
            call.func_id == entry_of(Method::WriteToStorage).func_id,
            call.input@ == u32_encoding(value),
    {
        let entry = self.entry(Method::WriteToStorage);
        ExtensionCall { func_id: entry.func_id, input: encode_u32(value) }
    }

    /// The request that hands `custom` to the host.
    pub fn custom_type_with_result(&self, custom: &Custom) -> (call: ExtensionCall)
        ensures
            call.func_id == entry_of(Method::CustomTypeWithResult).func_id,
            call.input@ == bytes_encoding(custom@),
    {
        let entry = self.entry(Method::CustomTypeWithResult);
        ExtensionCall { func_id: entry.func_id, input: custom.encode() }
    }

    /// The request that has the host call the guest back at point `at`.
    pub fn schedule_call(&self, at: u32) -> (call: ExtensionCall)
        ensures
            call.func_id == entry_of(Method::ScheduleCall).func_id,
            call.input@ == u32_encoding(at),
    {
        let entry = self.entry(Method::ScheduleCall);
        ExtensionCall { func_id: entry.func_id, input: encode_u32(at) }
    }

    /// Reads the host's reply to a call of `method`. Where the function
    /// does not handle the status, the code is handed on as it came. Where
    /// it does, zero is success, a code with a meaning is that error, and a
    /// code without one is a protocol violation. No function of the table
    /// returns a value, so no output is read.
    pub fn complete(&self, method: Method, status_code: u32) -> (r: Result<
        Reply,
        ProtocolViolation,
    >)
        ensures
            r == reply_meaning(method, status_code),
    {
        let entry = self.entry(method);
        if !entry.handle_status {
            return Ok(Reply::Unhandled(status_code));
        }
        match ExtensionError::try_from_status_code(status_code) {
            Ok(outcome) => Ok(Reply::Handled(outcome)),
            Err(violation) => Err(violation),
        }
    }
}

/// No two rows of the table share an id, and no id is zero.
pub proof fn lemma_function_ids_unique()
    ensures
        forall|i: int, j: int|
            0 <= i < table().len() && 0 <= j < table().len() && i != j ==> (#[trigger] table()[i]).func_id
                != (#[trigger] table()[j]).func_id,
        forall|i: int| 0 <= i < table().len() ==> (#[trigger] table()[i]).func_id != 0,
{
}

/// Every function has exactly one row: the row found under a function's
/// name is in the table, carries that name, and no other row has its id.
pub proof fn lemma_entry_of_in_table(method: Method)
    ensures
        entry_of(method).method == method,
        is_registered(entry_of(method).func_id),
        forall|i: int|
            0 <= i < table().len() && (#[trigger] table()[i]).func_id == entry_of(method).func_id
                ==> table()[i] == entry_of(method),
{
    match method {
        Method::WriteToStorage => {
            assert(table()[0].func_id == 1);
        },
        Method::CustomTypeWithResult => {
            assert(table()[1].func_id == 2);
        },
        Method::ScheduleCall => {
            assert(table()[2].func_id == 3);
        },
    }
}

/// A function that does not handle its status hands every code through
/// unchanged.
pub proof fn lemma_unhandled_status_passes_through(method: Method, status_code: u32)
    requires
        !entry_of(method).handle_status,
    ensures
        reply_meaning(method, status_code) == Ok::<Reply, ProtocolViolation>(
            Reply::Unhandled(status_code),
        ),
{
}

/// A function that handles its status sees success for zero and nothing
/// else, one error for each other code with a meaning, and a protocol
/// violation, never a value, for every code without one.
pub proof fn lemma_handled_status(method: Method, status_code: u32)
    requires
        entry_of(method).handle_status,
    ensures
        reply_meaning(method, status_code) == Ok::<Reply, ProtocolViolation>(
            Reply::Handled(Ok(())),
        ) <==> status_code == 0,
        status_code == 1 ==> reply_meaning(method, status_code) == Ok::<Reply, ProtocolViolation>(
            Reply::Handled(Err(ExtensionError::CustomCallFailed)),
        ),
        status_code > 1 ==> reply_meaning(method, status_code) == Err::<Reply, ProtocolViolation>(
            ProtocolViolation::UnknownStatusCode(status_code),
        ),
{
}

} // verus!
