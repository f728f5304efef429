use vstd::prelude::*;
use vstd::slice::{slice_subrange, slice_to_vec};
use crate::wire::{le_value, le_u16, le_u32};
use crate::iterator::{PickleError, PickleIterator, open_pickle};
use crate::navigation::{NavigationEntry, NavigationModel, step_navigation};
use crate::command::{CommandIdType, SnssFileType, navigation_update_id, lemma_navigation_update_by_id};

verus! {

/// Magic bytes and version: the bytes before the first record.
pub const SNSS_HEADER: usize = 8;

/// Alignment of the pickled command payloads.
pub const PAYLOAD_ALIGNMENT: usize = 4;

#[derive(Debug, Clone, Copy, PartialEq, Eq, Structural)]
pub enum SnssError {
    /// The buffer does not start with `SNSS`.
    InvalidMagic,
    /// The version is neither 1 nor 3.
    UnsupportedVersion,
    /// The buffer ends inside the header or inside a record.
    IoError,
    PickleError(PickleError),
    /// A record too short to hold a command id.
    InvalidCommandType,
    UnprocessedEntry(SnssFileType, u8),
}

/// A command that is passed through undecoded, or whose payload failed to decode.
#[derive(Debug)]
pub struct UnprocessedEntry {
    pub command_type: CommandIdType,
    /// Offset of the record, its length prefix included, in the buffer.
    pub offset: u64,
    /// Declared length of the record's payload, command id included.
    pub length: usize,
    /// Why a navigation update could not be decoded.
    pub error: Option<PickleError>,
}

#[derive(Debug)]
pub enum SessionCommand {
    NavigationEntry(NavigationEntry),
    UnprocessedEntry(UnprocessedEntry),
    EOF,
}

pub open spec fn has_magic(d: Seq<u8>) -> bool {
    d.len() >= 4 && d[0] == 0x53 && d[1] == 0x4E && d[2] == 0x53 && d[3] == 0x53
}

/// Why a buffer is no container, if it is none.
pub open spec fn header_error(d: Seq<u8>) -> Option<SnssError> {
    if !has_magic(d) {
        Some(SnssError::InvalidMagic)
    } else if d.len() < SNSS_HEADER {
        Some(SnssError::IoError)
    } else if le_value(d.subrange(4, 8)) != 1 && le_value(d.subrange(4, 8)) != 3 {
        Some(SnssError::UnsupportedVersion)
    } else {
        None
    }
}

/// What one step of the record stream yields.
pub enum RecordModel {
    End,
    Navigation(NavigationModel),
    Unprocessed { id: u8, offset: int, length: int, error: Option<PickleError> },
    Failed(SnssError),
}

/// The record at `c`, and where the next one starts.
pub open spec fn step_record(ft: SnssFileType, d: Seq<u8>, c: int) -> (RecordModel, int) {
    if d.len() - c < 2 {
        (RecordModel::End, c)
    } else {
        let length = le_value(d.subrange(c, c + 2)) as int;
        let body = c + 2;
        if d.len() - body < length {
            (RecordModel::Failed(SnssError::IoError), d.len() as int)
        } else if length == 0 {
            (RecordModel::Failed(SnssError::InvalidCommandType), body)
        } else {
            let id = d[body];
            let next = body + length;
            if id != navigation_update_id(ft) {
                (RecordModel::Unprocessed { id, offset: c, length, error: None }, next)
            } else {
                match open_pickle(d.subrange(body + 1, next), PAYLOAD_ALIGNMENT as int) {
                    Err(e) => (RecordModel::Unprocessed { id, offset: c, length, error: Some(e) }, next),
                    Ok(r) => match step_navigation(r).0 {
                        Ok(m) => (RecordModel::Navigation(m), next),
                        Err(e) => (RecordModel::Unprocessed { id, offset: c, length, error: Some(e) }, next),
                    },
                }
            }
        }
    }
}

/// The records from `c` up to the end of the stream, the end excluded.
pub open spec fn records_from(ft: SnssFileType, d: Seq<u8>, c: int) -> Seq<RecordModel>
    decreases d.len() - c,
{
    if c < 0 || c > d.len() {
        Seq::empty()
    } else {
        let (m, next) = step_record(ft, d, c);
        if m is End {
            Seq::empty()
        } else {
            seq![m] + records_from(ft, d, next)
        }
    }
}

/// Where the cursor stands after `k` steps from `c`.
pub open spec fn cursor_after(ft: SnssFileType, d: Seq<u8>, c: int, k: nat) -> int
    decreases k,
{
    if k == 0 {
        c
    } else {
        cursor_after(ft, d, step_record(ft, d, c).1, (k - 1) as nat)
    }
}

/// From `c` on, `d` holds whole records with the declared payload lengths `lens`.
pub open spec fn frames(d: Seq<u8>, c: int, lens: Seq<nat>) -> bool
    decreases lens.len(),
{
    lens.len() == 0 || {
        &&& 0 <= c
        &&& c + 2 + lens[0] <= d.len()
        &&& le_value(d.subrange(c, c + 2)) == lens[0]
        &&& frames(d, c + 2 + lens[0], lens.drop_first())
    }
}

/// Bytes taken by records with payload lengths `lens`: each adds its prefix.
pub open spec fn framed_size(lens: Seq<nat>) -> int
    decreases lens.len(),
{
    if lens.len() == 0 {
        0
    } else {
        2 + lens[0] + framed_size(lens.drop_first())
    }
}

/// Over whole records of declared lengths L1..Ln, the cursor advances by
/// exactly the sum of 2 + Li, and each record starts where the one before ended.
pub proof fn lemma_records_advance(ft: SnssFileType, d: Seq<u8>, c: int, lens: Seq<nat>)
    requires
        frames(d, c, lens),
    ensures
        cursor_after(ft, d, c, lens.len()) == c + framed_size(lens),
        forall|k: int| 0 <= k < lens.len() ==>
            #[trigger] cursor_after(ft, d, c, (k + 1) as nat) == cursor_after(ft, d, c, k as nat) + 2 + lens[k],
    decreases lens.len(),
{
    if lens.len() > 0 {
        let c1 = c + 2 + lens[0];
        assert(step_record(ft, d, c).1 == c1);
        lemma_records_advance(ft, d, c1, lens.drop_first());
        assert forall|k: int| 0 <= k < lens.len() implies
            #[trigger] cursor_after(ft, d, c, (k + 1) as nat) == cursor_after(ft, d, c, k as nat) + 2 + lens[k] by {
            assert(cursor_after(ft, d, c, (k + 1) as nat) == cursor_after(ft, d, c1, k as nat));
            if k == 0 {
                assert(cursor_after(ft, d, c1, 0) == c1);
            } else {
                assert(cursor_after(ft, d, c, k as nat) == cursor_after(ft, d, c1, (k - 1) as nat));
                assert(lens.drop_first()[k - 1] == lens[k]);
                assert(cursor_after(ft, d, c1, k as nat) == cursor_after(ft, d, c1, (k - 1) as nat) + 2 + lens[k]);
            }
        }
    }
}

/// A whole record whose id is not the navigation update of its table passes
/// through, with its offset and declared length and no error.
pub proof fn lemma_other_commands_pass_through(ft: SnssFileType, d: Seq<u8>, c: int)
    requires
        0 <= c,
        c + 2 <= d.len(),
        1 <= le_value(d.subrange(c, c + 2)),
        c + 2 + le_value(d.subrange(c, c + 2)) <= d.len(),
        d[c + 2] != navigation_update_id(ft),
    ensures
        step_record(ft, d, c) == (
            RecordModel::Unprocessed {
                id: d[c + 2],
                offset: c,
                length: le_value(d.subrange(c, c + 2)) as int,
                error: None,
            },
            c + 2 + le_value(d.subrange(c, c + 2)),
        ),
{
}

/// `r` is what the record model `m` describes, ids resolved in the table of `ft`.
pub open spec fn command_matches(r: Result<SessionCommand, SnssError>, m: RecordModel, ft: SnssFileType) -> bool {
    match m {
        RecordModel::End => r matches Ok(SessionCommand::EOF),
        RecordModel::Navigation(n) => r matches Ok(SessionCommand::NavigationEntry(e)) && e@ == n && e.wf(),
        RecordModel::Unprocessed { id, offset, length, error } => r matches Ok(
            SessionCommand::UnprocessedEntry(u),
        ) && u.command_type.resolves(ft, id) && u.offset as int == offset && u.length as int == length
            && u.error == error,
        RecordModel::Failed(e) => r matches Err(x) && x == e,
    }
}

/// A container over one buffer, with a cursor on its record stream.
#[derive(Debug)]
pub struct SnssFile {
    file_type: SnssFileType,
    version: u32,
    data: Vec<u8>,
    cursor: usize,
}

impl SnssFile {
    pub closed spec fn bytes(&self) -> Seq<u8> {
        self.data@
    }

    pub closed spec fn spec_cursor(&self) -> int {
        self.cursor as int
    }

    pub closed spec fn spec_file_type(&self) -> SnssFileType {
        self.file_type
    }

    pub closed spec fn spec_version(&self) -> u32 {
        self.version
    }

    pub open spec fn wf(&self) -> bool {
        &&& header_error(self.bytes()) is None
        &&& SNSS_HEADER <= self.spec_cursor() <= self.bytes().len()
        &&& self.spec_version() as nat == le_value(self.bytes().subrange(4, 8))
    }

    /// Checks the header of `data`; the cursor then stands on the first record.
    pub fn new(file_type: SnssFileType, data: Vec<u8>) -> (r: Result<SnssFile, SnssError>)
        ensures
            match r {
                Ok(f) => {
                    &&& header_error(data@) is None
                    &&& f.wf()
                    &&& f.bytes() == data@
                    &&& f.spec_file_type() == file_type
                    &&& f.spec_cursor() == SNSS_HEADER
                },
                Err(e) => header_error(data@) == Some(e),
            },
    {
        if data.len() < 4 || data[0] != 0x53 || data[1] != 0x4E || data[2] != 0x53 || data[3] != 0x53 {
            return Err(SnssError::InvalidMagic);
        }
        if data.len() < SNSS_HEADER {
            return Err(SnssError::IoError);
        }
        let field = slice_subrange(data.as_slice(), 4, 8);
        let version = le_u32(field);
        assert(field@.subrange(0, 4) =~= data@.subrange(4, 8));
        if version != 1 && version != 3 {
            return Err(SnssError::UnsupportedVersion);
        }
        Ok(SnssFile { file_type, version, data, cursor: SNSS_HEADER })
    }

    #[verifier::when_used_as_spec(spec_file_type)]
    pub fn file_type(&self) -> (r: SnssFileType)
        ensures
            r == self.spec_file_type(),
    {
        self.file_type
    }

    #[verifier::when_used_as_spec(spec_version)]
    pub fn version(&self) -> (r: u32)
        ensures
            r == self.spec_version(),
    {
        self.version
    }

    pub fn cursor(&self) -> (r: usize)
        ensures
            r as int == self.spec_cursor(),
    {
        self.cursor
    }

    /// Moves the cursor back to the first record.
    pub fn reset(&mut self)
        requires
            old(self).wf(),
        ensures
            final(self).wf(),
            final(self).bytes() == old(self).bytes(),
            final(self).spec_file_type() == old(self).spec_file_type(),
            final(self).spec_cursor() == SNSS_HEADER,
    {
        self.cursor = SNSS_HEADER;
    }

    /// Decodes every record from the cursor to the end of the stream, the end
    /// marker excluded; the cursor is left at the end.
    pub fn iter_session_commands(&mut self) -> (r: Vec<Result<SessionCommand, SnssError>>)
        requires
            old(self).wf(),
        ensures
            final(self).wf(),
            final(self).bytes() == old(self).bytes(),
            final(self).spec_file_type() == old(self).spec_file_type(),
            step_record(final(self).spec_file_type(), final(self).bytes(), final(self).spec_cursor()).0 is End,
            r@.len() == records_from(old(self).spec_file_type(), old(self).bytes(), old(self).spec_cursor()).len(),
            forall|i: int| 0 <= i < r@.len() ==> command_matches(
                #[trigger] r@[i],
                records_from(old(self).spec_file_type(), old(self).bytes(), old(self).spec_cursor())[i],
                old(self).spec_file_type(),
            ),
    {
        let ghost ft = self.spec_file_type();
        let ghost d = self.bytes();
        let ghost all = records_from(ft, d, self.spec_cursor());
        let mut out: Vec<Result<SessionCommand, SnssError>> = Vec::new();
        let mut done = false;
        while !done
            invariant
                self.wf(),
                self.bytes() == d,
                self.spec_file_type() == ft,
                out@.len() <= all.len(),
                all.subrange(out@.len() as int, all.len() as int) == records_from(ft, d, self.spec_cursor()),
                forall|i: int| 0 <= i < out@.len() ==> command_matches(#[trigger] out@[i], all[i], ft),
                done ==> step_record(ft, d, self.spec_cursor()).0 is End,
            decreases 2 * (d.len() - self.spec_cursor()) + if done { 0int } else { 1int },
        {
            let ghost c = self.spec_cursor();
            let command = self.get_next_session_command();
            if let Ok(SessionCommand::EOF) = command {
                done = true;
            } else {
                let ghost rest = records_from(ft, d, c);
                assert(rest == seq![step_record(ft, d, c).0] + records_from(ft, d, self.spec_cursor()));
                assert(all[out@.len() as int] == rest[0]);
                assert(all.subrange(out@.len() as int + 1, all.len() as int) =~= rest.subrange(1, rest.len() as int));
                assert(rest.subrange(1, rest.len() as int) =~= records_from(ft, d, self.spec_cursor()));
                out.push(command);
            }
        }
        assert(records_from(ft, d, self.spec_cursor()).len() == 0);
        out
    }

    /// Decodes the record at the cursor and moves past it. A payload cut short
    /// fails this record only; a navigation update that does not decode is
    /// passed through with its error.
    pub fn get_next_session_command(&mut self) -> (r: Result<SessionCommand, SnssError>)
        requires
            old(self).wf(),
        ensures
            final(self).wf(),
            final(self).bytes() == old(self).bytes(),
            final(self).spec_file_type() == old(self).spec_file_type(),
            final(self).spec_cursor() == step_record(
                old(self).spec_file_type(),
                old(self).bytes(),
                old(self).spec_cursor(),
            ).1,
            command_matches(
                r,
                step_record(old(self).spec_file_type(), old(self).bytes(), old(self).spec_cursor()).0,
                old(self).spec_file_type(),
            ),
    {
        let start = self.cursor;
        if self.data.len() - start < 2 {
            return Ok(SessionCommand::EOF);
        }
        let prefix = slice_subrange(self.data.as_slice(), start, start + 2);
        let length = le_u16(prefix) as usize;
        assert(prefix@.subrange(0, 2) =~= self.data@.subrange(start as int, start + 2));
        let body = start + 2;
        if self.data.len() - body < length {
            self.cursor = self.data.len();
            return Err(SnssError::IoError);
        }
        let next = body + length;
        self.cursor = next;
        if length == 0 {
            return Err(SnssError::InvalidCommandType);
        }
        let id = self.data[body];
        let command_type = CommandIdType::resolve(self.file_type, id);
        proof {
            lemma_navigation_update_by_id(command_type, self.file_type, id);
        }
        if !command_type.is_navigation_update() {
            return Ok(
                SessionCommand::UnprocessedEntry(
                    UnprocessedEntry { command_type, offset: start as u64, length, error: None },
                ),
            );
        }
        let payload = slice_to_vec(slice_subrange(self.data.as_slice(), body + 1, next));
        match PickleIterator::new(payload, PAYLOAD_ALIGNMENT) {
            Err(e) => Ok(
                SessionCommand::UnprocessedEntry(
                    UnprocessedEntry { command_type, offset: start as u64, length, error: Some(e) },
                ),
            ),
            Ok(mut pickle) => match NavigationEntry::from_pickle(&mut pickle) {
                Ok(entry) => Ok(SessionCommand::NavigationEntry(entry)),
                Err(e) => Ok(
                    SessionCommand::UnprocessedEntry(
                        UnprocessedEntry { command_type, offset: start as u64, length, error: Some(e) },
                    ),
                ),
            },
        }
    }
}

} // verus!
