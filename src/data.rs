//! Datarefs: named values shared with the host and other plugins.
//!
//! A dataref created elsewhere is found by name and checked against the type the caller
//! expects. A dataref owned by this plugin keeps its value here; the host reads and writes
//! arrays through windows of that value.
use vstd::prelude::*;

use core::marker::PhantomData;

use crate::ffi::{c_string_bytes, check_c_string, check_c_string_ok, text_len, InvalidUtf8, NulByteError, StringBuffer};
use crate::registry::{ContextBlock, HostId, LifeEvent, RegistrationError, Stage};
use crate::XPAPI;
use vstd::string::*;

verus! {

/// Access struct for the host's data APIs.
pub struct DataApi {
    pub _phantom: crate::NoSendSync,
}

/// Marks a dataref as readable
pub struct ReadOnly;

/// Marks a dataref as writeable
pub struct ReadWrite;

/// Marker for data access types
pub trait Access {
    /// Returns true if this access allows the dataref to be written
    fn writeable() -> bool;
}

impl Access for ReadOnly {
    fn writeable() -> bool {
        false
    }
}

impl Access for ReadWrite {
    fn writeable() -> bool {
        true
    }
}

/// The host's type bits.
pub const TYPE_INT: u32 = 1;
/// A single-precision value
pub const TYPE_FLOAT: u32 = 2;
/// A double-precision value
pub const TYPE_DOUBLE: u32 = 4;
/// An array of single-precision values
pub const TYPE_FLOAT_ARRAY: u32 = 8;
/// An array of integers
pub const TYPE_INT_ARRAY: u32 = 16;
/// An array of bytes
pub const TYPE_DATA: u32 = 32;

/// Marker for types that can be used with datarefs
pub trait DataType {
    /// Returns the host's type bits for this type
    fn sim_type() -> u32;
}

impl DataType for bool {
    fn sim_type() -> u32 {
        TYPE_INT
    }
}

impl DataType for u8 {
    fn sim_type() -> u32 {
        TYPE_INT
    }
}

impl DataType for i8 {
    fn sim_type() -> u32 {
        TYPE_INT
    }
}

impl DataType for u16 {
    fn sim_type() -> u32 {
        TYPE_INT
    }
}

impl DataType for i16 {
    fn sim_type() -> u32 {
        TYPE_INT
    }
}

impl DataType for u32 {
    fn sim_type() -> u32 {
        TYPE_INT
    }
}

impl DataType for i32 {
    fn sim_type() -> u32 {
        TYPE_INT
    }
}

impl DataType for Vec<i32> {
    fn sim_type() -> u32 {
        TYPE_INT_ARRAY
    }
}

impl DataType for Vec<u32> {
    fn sim_type() -> u32 {
        TYPE_INT_ARRAY
    }
}

impl DataType for Vec<u8> {
    fn sim_type() -> u32 {
        TYPE_DATA
    }
}

impl DataType for Vec<i8> {
    fn sim_type() -> u32 {
        TYPE_DATA
    }
}

/// Marker for types that are arrays
pub trait ArrayType: DataType {}

impl ArrayType for Vec<i32> {}

impl ArrayType for Vec<u32> {}

impl ArrayType for Vec<u8> {}

impl ArrayType for Vec<i8> {}

/// Trait for data accessors that can be read
pub trait DataRead<T> {
    /// Reads a value
    fn get(&self) -> T;
}

/// Trait for writable data accessors
pub trait DataReadWrite<T>: DataRead<T> {
    /// Writes a value
    fn set(&mut self, value: T);
}

/// Trait for readable array data accessors, by element type
pub trait ArrayRead<E> {
    /// Reads values into `dest`, as many as both hold, and returns how many.
    fn get(&self, dest: &mut [E]) -> usize;

    /// Returns the length of the data array
    fn len(&self) -> usize;
}

/// Trait for array accessors that can be read and written
pub trait ArrayReadWrite<E>: ArrayRead<E> {
    /// Writes values from `values`, as many as both hold.
    fn set(&mut self, values: &[E]);
}

/// Trait for data accessors that can be read as strings
pub trait StringRead {
    /// Reads the value of this dataref as a string: its bytes before the first null.
    fn get_as_string(&self) -> Result<String, InvalidUtf8>;
}

impl<T: ArrayRead<u8>> StringRead for T {
    fn get_as_string(&self) -> Result<String, InvalidUtf8> {
        let mut buffer = StringBuffer::new(self.len());
        self.get(buffer.as_bytes_mut());
        buffer.into_string()
    }
}

/// Trait for data accessors that can be written as strings
pub trait StringReadWrite: StringRead {
    /// Sets the value of this dataref to `value` and a null. A value with a null byte is
    /// refused and nothing is written.
    fn set_as_string(&mut self, value: &str) -> Result<(), NulByteError>;
}

impl<T: ArrayReadWrite<u8>> StringReadWrite for T {
    fn set_as_string(&mut self, value: &str) -> Result<(), NulByteError> {
        check_c_string(value)?;
        let bytes = c_string_bytes(value);
        self.set(bytes.as_slice());
        Ok(())
    }
}

/// True when a dataref whose type bits are `actual` can be used as `expected`.
pub open spec fn type_matches(actual: u32, expected: u32) -> bool {
    actual & expected == expected
}

/// A count for the host, which takes an `i32`: `size`, or `i32::MAX` when it is larger.
pub fn array_size(size: usize) -> (r: i32)
    ensures
        r == vstd::math::min(size as int, i32::MAX as int),
{
    if size > i32::MAX as usize {
        i32::MAX
    } else {
        size as i32
    }
}

/// Errors that can occur when finding datarefs
#[derive(Debug, Clone, Copy, PartialEq, Eq, Structural)]
pub enum FindError {
    /// The provided name contained a null byte
    Null(NulByteError),
    /// The dataref could not be found
    NotFound,
    /// The dataref is not writable
    NotWritable,
    /// The dataref does not have the correct type
    WrongType,
}

impl FindError {
    /// The error in the taxonomy shared by every registration and lookup.
    pub fn kind(&self) -> (r: RegistrationError)
        ensures
            r == match *self {
                FindError::Null(e) => RegistrationError::InvalidIdentifier(e),
                FindError::NotFound => RegistrationError::NotFound,
                FindError::NotWritable => RegistrationError::TypeMismatch,
                FindError::WrongType => RegistrationError::TypeMismatch,
            },
    {
        match *self {
            FindError::Null(e) => RegistrationError::InvalidIdentifier(e),
            FindError::NotFound => RegistrationError::NotFound,
            FindError::NotWritable => RegistrationError::TypeMismatch,
            FindError::WrongType => RegistrationError::TypeMismatch,
        }
    }
}

/// A dataref created by the host or another plugin
///
/// T is the data type stored in the dataref. A is the access level (`ReadOnly` or
/// `ReadWrite`).
pub struct DataRef<T, A> {
    /// The host's handle of the dataref
    id: HostId,
    _phantom: PhantomData<(T, A)>,
}

impl<T, A> DataRef<T, A> {
    pub closed spec fn spec_id(&self) -> HostId {
        self.id
    }

    /// The dataref the host knows by `id`.
    pub(crate) fn from_id(id: HostId) -> (r: Self)
        ensures
            r.spec_id() == id,
    {
        DataRef { id, _phantom: PhantomData }
    }

    /// The host's handle of the dataref
    pub fn id(&self) -> (r: HostId)
        ensures
            r == self.spec_id(),
    {
        self.id
    }
}

impl<T: DataType> DataRef<T, ReadOnly> {
    /// Decides the lookup of a dataref named `name`: `found` is what the host's lookup gave,
    /// `actual_types` the type bits the host reports for it, and `expected_types` the bits of
    /// `T`. A name with a null byte is refused before any host call.
    pub fn find(name: &str, found: Option<HostId>, actual_types: u32, expected_types: u32) -> (r: Result<
        DataRef<T, ReadOnly>,
        FindError,
    >)
        ensures
            !check_c_string_ok(name) ==> r is Err && r->Err_0 == FindError::Null(
                NulByteError { position: text_len(name.spec_bytes()) as usize },
            ),
            check_c_string_ok(name) && found is None ==> r is Err && r->Err_0
                == FindError::NotFound,
            check_c_string_ok(name) && found is Some && !type_matches(
                actual_types,
                expected_types,
            ) ==> r is Err && r->Err_0 == FindError::WrongType,
            r is Ok <==> check_c_string_ok(name) && found is Some && type_matches(
                actual_types,
                expected_types,
            ),
            r matches Ok(d) ==> Some(d.spec_id()) == found,
    {
        match check_c_string(name) {
            Err(e) => {
                return Err(FindError::Null(e));
            },
            Ok(()) => {},
        }
        match found {
            None => Err(FindError::NotFound),
            Some(id) => {
                if actual_types & expected_types == expected_types {
                    Ok(DataRef { id, _phantom: PhantomData })
                } else {
                    Err(FindError::WrongType)
                }
            },
        }
    }

    /// Makes this dataref writable, if the host says it can be written; gives it back
    /// otherwise.
    pub fn writeable(self, can_write: bool) -> (r: Result<DataRef<T, ReadWrite>, Self>)
        ensures
            r is Ok <==> can_write,
            r matches Ok(d) ==> d.spec_id() == self.spec_id(),
            r matches Err(d) ==> d.spec_id() == self.spec_id(),
    {
        if can_write {
            Ok(DataRef { id: self.id, _phantom: PhantomData })
        } else {
            Err(self)
        }
    }
}

/// Errors that can occur when creating a dataref
#[derive(Debug, Clone, Copy, PartialEq, Eq, Structural)]
pub enum CreateError {
    /// The provided name contained a null byte
    Null(NulByteError),
    /// The dataref exists already
    Exists,
    /// The host refused the registration
    HostRejected,
}

/// The window of `content` that a host read at `offset` of at most `max` elements gets: empty
/// when the offset is negative or past the end.
pub open spec fn read_window<T>(content: Seq<T>, offset: int, max: int) -> Seq<T> {
    if offset < 0 || offset >= content.len() {
        Seq::empty()
    } else if max < 0 || max > content.len() - offset {
        content.subrange(offset, content.len() as int)
    } else {
        content.subrange(offset, offset + max)
    }
}

/// `content` after a host write of `values` at `offset`: the elements from `offset` on take
/// the values, as many as fit; nothing changes when the offset is negative or past the end.
pub open spec fn write_window<T>(content: Seq<T>, values: Seq<T>, offset: int) -> Seq<T> {
    if offset < 0 || offset >= content.len() {
        content
    } else {
        Seq::new(
            content.len(),
            |i: int|
                if offset <= i < offset + values.len() {
                    values[i - offset]
                } else {
                    content[i]
                },
        )
    }
}

impl CreateError {
    /// The error in the taxonomy shared by every registration.
    pub fn kind(&self) -> (r: RegistrationError)
        ensures
            r == match *self {
                CreateError::Null(e) => RegistrationError::InvalidIdentifier(e),
                CreateError::Exists => RegistrationError::NameConflict,
                CreateError::HostRejected => RegistrationError::HostRejected,
            },
    {
        match *self {
            CreateError::Null(e) => RegistrationError::InvalidIdentifier(e),
            CreateError::Exists => RegistrationError::NameConflict,
            CreateError::HostRejected => RegistrationError::HostRejected,
        }
    }
}

/// A dataref owned by this plugin, holding its value.
///
/// The access parameter determines whether the host and other plugins can write it. Owned
/// datarefs can always be written by this plugin. The value lives in the registration's
/// block, whose address the host keeps.
pub struct OwnedData<T, A> {
    /// The value and the registration's lifecycle
    block: ContextBlock<(), T>,
    _access: PhantomData<A>,
}

impl<T: DataType, A: Access> OwnedData<T, A> {
    pub closed spec fn block(&self) -> ContextBlock<(), T> {
        self.block
    }

    pub open spec fn spec_value(&self) -> T {
        self.block().spec_state()
    }

    /// Decides the creation of a dataref named `name`, given what the host's lookup of the
    /// name found. Names with a null byte are refused first, then a name that exists.
    pub fn validate_new(name: &str, existing: Option<HostId>) -> (r: Result<(), CreateError>)
        ensures
            !check_c_string_ok(name) ==> r == Err::<(), CreateError>(
                CreateError::Null(NulByteError { position: text_len(name.spec_bytes()) as usize }),
            ),
            check_c_string_ok(name) ==> (r is Ok <==> existing is None),
            check_c_string_ok(name) && existing is Some ==> r == Err::<(), CreateError>(
                CreateError::Exists,
            ),
    {
        match check_c_string(name) {
            Err(e) => {
                return Err(CreateError::Null(e));
            },
            Ok(()) => {},
        }
        if existing.is_some() {
            Err(CreateError::Exists)
        } else {
            Ok(())
        }
    }

    /// Allocates the dataref holding `value`, before the host registration call.
    pub fn new(value: T) -> (r: Self)
        ensures
            r.block().wf(),
            r.block().stage() == Stage::Allocated,
            r.block().history() == seq![LifeEvent::Allocate],
            r.spec_value() == value,
    {
        OwnedData { block: ContextBlock::new((), value), _access: PhantomData }
    }

    /// Records the host's answer to the registration: its handle, or `None` when it refused,
    /// in which case the dataref must be released at once.
    pub fn bind(&mut self, id: Option<HostId>) -> (r: Result<(), CreateError>)
        requires
            old(self).block().wf(),
            old(self).block().stage() == Stage::Allocated,
        ensures
            final(self).block().wf(),
            r is Err <==> id is None,
            r is Err ==> r == Err::<(), CreateError>(CreateError::HostRejected)
                && final(self).block().stage() == Stage::Refused,
            r is Ok ==> final(self).block().stage() == Stage::Registered
                && final(self).block().spec_active() && final(self).block().spec_host_id() == id,
            final(self).block().outcome() == id,
            final(self).spec_value() == old(self).spec_value(),
            final(self).block().history() == old(self).block().history().push(
                match id {
                    Some(h) => LifeEvent::Register(h),
                    None => LifeEvent::Refuse,
                },
            ),
    {
        match self.block.bind(id) {
            Ok(()) => Ok(()),
            Err(_) => Err(CreateError::HostRejected),
        }
    }

    /// The host's handle, once registered.
    pub fn id(&self) -> (r: Option<HostId>)
        ensures
            r == self.block().spec_host_id(),
    {
        self.block.host_id()
    }

    /// 1 if this dataref should be writeable by other plugins and the host
    pub fn writeable() -> (r: i32)
        ensures
            r == 0 || r == 1,
    {
        if A::writeable() {
            1
        } else {
            0
        }
    }

    /// Begins the teardown: the handle the host must unregister before the value is
    /// released.
    pub fn detach(&mut self) -> (r: Option<HostId>)
        requires
            old(self).block().wf(),
            old(self).block().stage() == Stage::Registered,
        ensures
            final(self).block().wf(),
            final(self).block().stage() == Stage::Detached,
            r == (if old(self).block().spec_active() {
                old(self).block().spec_host_id()
            } else {
                None
            }),
            final(self).spec_value() == old(self).spec_value(),
    {
        self.block.detach()
    }

    /// Frees the value, and returns the registration's complete history.
    pub fn release(self) -> (history: Ghost<Seq<LifeEvent>>)
        requires
            self.block().wf(),
            self.block().stage() == Stage::Refused || self.block().stage() == Stage::Detached,
        ensures
            history@ == self.block().history().push(LifeEvent::Release),
            history@ == crate::registry::lifecycle(self.block().outcome(), self.block().finals()),
    {
        self.block.release()
    }
}

impl<T: DataType + Copy, A: Access> OwnedData<T, A> {
    /// Reads the value
    pub fn get(&self) -> (r: T)
        ensures
            r == self.spec_value(),
    {
        *self.block.state_ref()
    }

    /// Writes the value
    pub fn set(&mut self, value: T)
        ensures
            final(self).spec_value() == value,
            old(self).block().same_lifecycle(&final(self).block()),
    {
        let (_, v) = self.block.parts_mut();
        *v = value;
    }
}

impl<T: DataType + Copy, A: Access> DataRead<T> for OwnedData<T, A> {
    fn get(&self) -> T {
        OwnedData::get(self)
    }
}

impl<T: DataType + Copy, A: Access> DataReadWrite<T> for OwnedData<T, A> {
    fn set(&mut self, value: T) {
        OwnedData::set(self, value);
    }
}

impl<E: Copy, A: Access> ArrayRead<E> for OwnedData<Vec<E>, A> where Vec<E>: DataType {
    fn get(&self, dest: &mut [E]) -> usize {
        self.get_into(dest)
    }

    fn len(&self) -> usize {
        OwnedData::len(self)
    }
}

impl<E: Copy, A: Access> ArrayReadWrite<E> for OwnedData<Vec<E>, A> where Vec<E>: DataType {
    fn set(&mut self, values: &[E]) {
        self.set_from(values);
    }
}

impl<E: Copy, A: Access> OwnedData<Vec<E>, A> where Vec<E>: DataType {
    /// The number of elements
    pub fn len(&self) -> (r: usize)
        ensures
            r == self.spec_value()@.len(),
    {
        self.block.state_ref().len()
    }

    /// Copies into `dest` as many leading elements as both hold; returns how many.
    pub fn get_into(&self, dest: &mut [E]) -> (r: usize)
        ensures
            r == vstd::math::min(old(dest)@.len() as int, self.spec_value()@.len() as int),
            final(dest)@.len() == old(dest)@.len(),
            final(dest)@ == self.spec_value()@.take(r as int) + old(dest)@.skip(r as int),
    {
        let value = self.block.state_ref();
        let n: usize = if dest.len() < value.len() { dest.len() } else { value.len() };
        let mut i: usize = 0;
        while i < n
            invariant
                n <= dest@.len(),
                n <= value@.len(),
                i <= n,
                dest@.len() == old(dest)@.len(),
                dest@ == value@.take(i as int) + old(dest)@.skip(i as int),
            decreases n - i,
        {
            dest[i] = value[i];
            i = i + 1;
            proof {
                assert(dest@ =~= value@.take(i as int) + old(dest)@.skip(i as int));
            }
        }
        n
    }

    /// Copies as many leading elements of `values` as the dataref holds.
    pub fn set_from(&mut self, values: &[E])
        ensures
            final(self).spec_value()@ == write_window(old(self).spec_value()@, values@, 0),
            old(self).block().same_lifecycle(&final(self).block()),
    {
        let (_, v) = self.block.parts_mut();
        write_at(v, values, 0);
    }

    /// The host's read callback: the window at `offset` of at most `max` elements.
    pub fn read_window(&self, offset: i32, max: i32) -> (r: Vec<E>)
        ensures
            r@ == read_window(self.spec_value()@, offset as int, max as int),
    {
        read_at(self.block.state_ref(), offset, max)
    }

    /// The host's write callback: `values` written at `offset`.
    pub fn write_window(&mut self, values: &[E], offset: i32)
        ensures
            final(self).spec_value()@ == write_window(
                old(self).spec_value()@,
                values@,
                offset as int,
            ),
            old(self).block().same_lifecycle(&final(self).block()),
    {
        let (_, v) = self.block.parts_mut();
        write_at(v, values, offset);
    }
}

/// Copies the window at `offset` of at most `max` elements of `content`.
fn read_at<E: Copy>(content: &Vec<E>, offset: i32, max: i32) -> (r: Vec<E>)
    ensures
        r@ == read_window(content@, offset as int, max as int),
{
    let mut out: Vec<E> = Vec::new();
    if offset < 0 || offset as usize >= content.len() {
        return out;
    }
    let start = offset as usize;
    let end: usize = if max < 0 || max as usize > content.len() - start {
        content.len()
    } else {
        start + max as usize
    };
    let mut i: usize = start;
    while i < end
        invariant
            start <= i <= end <= content@.len(),
            out@ == content@.subrange(start as int, i as int),
        decreases end - i,
    {
        out.push(content[i]);
        i = i + 1;
        proof {
            assert(out@ =~= content@.subrange(start as int, i as int));
        }
    }
    proof {
        assert(out@ =~= read_window(content@, offset as int, max as int));
    }
    out
}

/// Writes `values` into `content` from `offset`, as many as fit.
fn write_at<E: Copy>(content: &mut Vec<E>, values: &[E], offset: i32)
    ensures
        final(content)@ == write_window(old(content)@, values@, offset as int),
{
    if offset < 0 || offset as usize >= content.len() {
        return;
    }
    let start = offset as usize;
    let end: usize = if values.len() > content.len() - start {
        content.len()
    } else {
        start + values.len()
    };
    let mut i: usize = start;
    while i < end
        invariant
            start <= i <= end <= content@.len(),
            end - start <= values@.len(),
            content@.len() == old(content)@.len(),
            forall|j: int|
                0 <= j < content@.len() ==> #[trigger] content@[j] == if start <= j < i {
                    values@[j - start]
                } else {
                    old(content)@[j]
                },
        decreases end - i,
    {
        content.set(i, values[i - start]);
        i = i + 1;
    }
    proof {
        assert(content@ =~= write_window(old(content)@, values@, offset as int));
    }
}

/// Possible errors raised when trying to share a dataref.
#[derive(Debug, Clone, Copy, PartialEq, Eq, Structural)]
pub enum SharedDataError {
    /// The name contains a null byte.
    Nul(NulByteError),
    /// The shared data already exists, but its type does not match.
    WrongType,
}

impl SharedDataError {
    /// The error in the taxonomy shared by every registration.
    pub fn kind(&self) -> (r: RegistrationError)
        ensures
            r == match *self {
                SharedDataError::Nul(e) => RegistrationError::InvalidIdentifier(e),
                SharedDataError::WrongType => RegistrationError::TypeMismatch,
            },
    {
        match *self {
            SharedDataError::Nul(e) => RegistrationError::InvalidIdentifier(e),
            SharedDataError::WrongType => RegistrationError::TypeMismatch,
        }
    }
}

/// A handler for when shared data is changed.
pub trait SharedDataHandler<T> {
    /// Called when shared data is changed.
    fn data_changed(&mut self, x: &mut XPAPI, dref: &mut DataRef<T, ReadWrite>);
}

/// What a shared dataref keeps beside its handler: its name, and the dataref once found.
pub struct SharedDataContext<T> {
    /// The name of the shared dataref; it holds no null byte
    pub name: String,
    /// The dataref, found on the first change
    pub dref: Option<DataRef<T, ReadWrite>>,
}

/// A shared dataref. The handler is called every time its value changes.
pub struct SharedData<T, H> {
    block: ContextBlock<H, SharedDataContext<T>>,
}

impl<T: DataType, H: SharedDataHandler<T>> SharedData<T, H> {
    pub closed spec fn block(&self) -> ContextBlock<H, SharedDataContext<T>> {
        self.block
    }

    /// Allocates a share of the dataref named `name`, before the host call; a name with a
    /// null byte is refused before anything is allocated.
    pub fn new(name: &str, handler: H) -> (r: Result<Self, SharedDataError>)
        ensures
            r is Ok <==> check_c_string_ok(name),
            r is Err ==> r->Err_0 == SharedDataError::Nul(
                NulByteError { position: text_len(name.spec_bytes()) as usize },
            ),
            r matches Ok(d) ==> d.block().wf() && d.block().stage() == Stage::Allocated
                && d.block().history() == seq![LifeEvent::Allocate]
                && d.block().spec_state().name@ == name@ && d.block().spec_state().dref is None,
    {
        match check_c_string(name) {
            Err(e) => {
                return Err(SharedDataError::Nul(e));
            },
            Ok(()) => {},
        }
        let context = SharedDataContext { name: name.to_string(), dref: None };
        Ok(SharedData { block: ContextBlock::new(handler, context) })
    }

    /// The name, for the host's share and unshare calls.
    pub fn name(&self) -> (r: &str)
        ensures
            r@ == self.block().spec_state().name@,
    {
        self.block.state_ref().name.as_str()
    }

    /// Records the host's answer to the share call: 1 accepts it; anything else means a
    /// dataref of that name exists with another type, and the share must be released at once.
    pub fn bind(&mut self, res: i32) -> (r: Result<(), SharedDataError>)
        requires
            old(self).block().wf(),
            old(self).block().stage() == Stage::Allocated,
        ensures
            final(self).block().wf(),
            r is Ok <==> res == 1,
            r is Err ==> r->Err_0 == SharedDataError::WrongType && final(self).block().stage()
                == Stage::Refused,
            r is Ok ==> final(self).block().stage() == Stage::Registered
                && final(self).block().spec_active() && final(self).block().spec_host_id()
                == Some(0u64),
            final(self).block().outcome() == (if res == 1 {
                Some(0u64)
            } else {
                None
            }),
            final(self).block().spec_state() == old(self).block().spec_state(),
            final(self).block().history() == old(self).block().history().push(
                if res == 1 {
                    LifeEvent::Register(0)
                } else {
                    LifeEvent::Refuse
                },
            ),
    {
        let outcome: Option<HostId> = if res == 1 {
            Some(0)
        } else {
            None
        };
        match self.block.bind(outcome) {
            Ok(()) => Ok(()),
            Err(_) => Err(SharedDataError::WrongType),
        }
    }

    /// Whether the trampoline must look the dataref up before it can run the handler.
    pub fn needs_lookup(&self) -> (r: bool)
        ensures
            r == (self.block().spec_state().dref is None),
    {
        self.block.state_ref().dref.is_none()
    }

    /// The trampoline's work for one change: the dataref found on the first change
    /// (`found`, ignored afterwards) is kept, and the handler runs on a dataref with the kept
    /// id.
    pub fn data_changed(&mut self, x: &mut XPAPI, found: HostId)
        requires
            old(self).block().wf(),
            old(self).block().stage() == Stage::Registered,
        ensures
            final(self).block().wf(),
            final(self).block().stage() == Stage::Registered,
            final(self).block().spec_host_id() == old(self).block().spec_host_id(),
            final(self).block().history() == old(self).block().history().push(
                LifeEvent::Invoke(false),
            ),
            final(self).block().spec_active() == old(self).block().spec_active(),
            final(self).block().outcome() == old(self).block().outcome(),
            final(self).block().spec_state().name@ == old(self).block().spec_state().name@,
            final(self).block().spec_state().dref matches Some(d) && d.spec_id() == match old(
                self,
            ).block().spec_state().dref {
                Some(e) => e.spec_id(),
                None => found,
            },
    {
        let (handler, context) = self.block.parts_mut();
        let id = match &context.dref {
            Some(d) => d.id(),
            None => found,
        };
        context.dref = Some(DataRef::from_id(id));
        let mut handed = DataRef::from_id(id);
        handler.data_changed(x, &mut handed);
        self.block.record_invocation(false);
    }

    /// Begins the teardown: true when the host must be told to unshare before the share is
    /// released.
    pub fn detach(&mut self) -> (r: bool)
        requires
            old(self).block().wf(),
            old(self).block().stage() == Stage::Registered,
        ensures
            final(self).block().wf(),
            final(self).block().stage() == Stage::Detached,
            r == old(self).block().spec_active(),
    {
        proof {
            self.block.lemma_bound();
        }
        let id = self.block.detach();
        id.is_some()
    }

    /// Frees the share with its handler, and returns its complete history.
    pub fn release(self) -> (history: Ghost<Seq<LifeEvent>>)
        requires
            self.block().wf(),
            self.block().stage() == Stage::Refused || self.block().stage() == Stage::Detached,
        ensures
            history@ == self.block().history().push(LifeEvent::Release),
            history@ == crate::registry::lifecycle(self.block().outcome(), self.block().finals()),
    {
        self.block.release()
    }
}

} // verus!
