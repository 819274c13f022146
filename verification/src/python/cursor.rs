//! The position of a guard that is used like a file.
use vstd::prelude::*;

verus! {

/// How many bytes a read at `position` gives of `len`: at most `size`, if it
/// says how many, or all that are left.
pub open spec fn readable(position: usize, len: nat, size: Option<isize>) -> int {
    if position >= len {
        0
    } else if size is Some && 0 <= size->Some_0 <= len - position {
        size->Some_0 as int
    } else {
        len - position
    }
}

/// A write that does not fit.
#[derive(Copy, Clone, Debug, PartialEq, Eq, Structural)]
pub struct NoRoom {
    pub cursor: usize,
    pub writing: usize,
    pub capacity: usize,
}

#[derive(Copy, Clone, Debug, PartialEq, Eq, Structural)]
pub struct Cursor {
    pub position: usize,
}

impl Cursor {
    /// At the start.
    pub fn new() -> (cursor: Self)
        ensures
            cursor == (Cursor { position: 0 }),
    {
        Cursor { position: 0 }
    }

    pub fn tell(&self) -> (position: usize)
        ensures
            position == self.position,
    {
        self.position
    }

    /// Any position will do, also behind the end.
    pub fn seek(&mut self, pos: usize) -> (position: usize)
        ensures
            position == pos,
            *final(self) == (Cursor { position: pos }),
    {
        self.position = pos;
        pos
    }

    /// Moves behind what is read of `len` bytes, and tells where that starts
    /// and ends.
    pub fn take(&mut self, len: usize, size: Option<isize>) -> (range: (usize, usize))
        ensures
            range.0 <= range.1 <= len,
            range.1 - range.0 == readable(old(self).position, len as nat, size),
            range.1 > range.0 ==> range.0 == old(self).position,
            final(self).position == old(self).position + (range.1 - range.0),
    {
        let position: usize = self.position;
        if position >= len {
            return (len, len);
        }
        let available: usize = len - position;
        let to_read: usize = match size {
            Some(n) => {
                if n >= 0 && n as usize <= available {
                    n as usize
                } else {
                    available
                }
            },
            None => available,
        };
        self.position = position + to_read;
        (position, position + to_read)
    }

    /// Where `writing` bytes go in a buffer of `capacity` bytes.
    pub fn room(&self, writing: usize, capacity: usize) -> (range: Result<(usize, usize), NoRoom>)
        requires
            self.position + writing <= usize::MAX,
        ensures
            range == (if self.position + writing > capacity {
                Err(NoRoom { cursor: self.position, writing, capacity })
            } else {
                Ok((self.position, (self.position + writing) as usize))
            }),
    {
        if self.position + writing > capacity {
            return Err(NoRoom { cursor: self.position, writing, capacity });
        }
        Ok((self.position, self.position + writing))
    }

    /// Moves behind what was written.
    pub fn advance(&mut self, written: usize)
        requires
            old(self).position + written <= usize::MAX,
        ensures
            final(self).position == old(self).position + written,
    {
        self.position = self.position + written;
    }
}

/// A read at any position gives exactly as many bytes as it asks for, or all that
/// are left if they are fewer, or if it does not say how many.
pub proof fn law_read_size(position: usize, len: nat, size: Option<isize>)
    ensures
        ({
            let left: int = if position < len {
                len - position
            } else {
                0
            };
            let count = readable(position, len, size);
            &&& 0 <= count <= left
            &&& size is None ==> count == left
            &&& size matches Some(n) ==> {
                &&& n < 0 ==> count == left
                &&& n >= 0 ==> count <= n && (count == n || count == left)
            }
        }),
{
}

/// Two reads of sizes that are there give what one read of both would give, at
/// every position.
pub proof fn law_reads_add_up(position: usize, len: nat, first: isize, second: isize)
    requires
        len <= usize::MAX,
        0 <= first,
        0 <= second,
        first + second <= isize::MAX,
    ensures
        readable(position, len, Some(first)) + readable(
            (position + readable(position, len, Some(first))) as usize,
            len,
            Some(second),
        ) == readable(position, len, Some((first + second) as isize)),
{
}

/// Two reads one after the other give what one read of all would give: a
/// stream of reads gives every byte once, in order.
pub proof fn law_reads_are_consecutive(position: usize, len: nat, size: Option<isize>)
    requires
        len <= usize::MAX,
    ensures
        readable(position, len, size) + readable(
            (position + readable(position, len, size)) as usize,
            len,
            None,
        ) == readable(position, len, None),
{
}

/// There is room for a write if and only if it ends within the buffer, and then
/// it goes where the cursor is, all of it.
pub proof fn law_room(
    cursor: Cursor,
    writing: usize,
    capacity: usize,
    range: Result<(usize, usize), NoRoom>,
)
    requires
        cursor.position + writing <= usize::MAX,
        call_ensures(Cursor::room, (&cursor, writing, capacity), range),
    ensures
        range is Ok <==> cursor.position + writing <= capacity,
        range matches Ok((start, end)) ==> start == cursor.position && end - start == writing,
{
}

} // verus!
