//! Line sources: the polymorphic reader the processing loop consumes.

use vstd::prelude::*;
use vstd::string::StrSliceExecFns;

use crate::error::TimelnError;

verus! {

/// A source of input lines.
///
/// `read_line` appends at most one line — a newline can stand only as the
/// last appended character — to `buf`, and answers how much it read: zero
/// exactly when the stream is exhausted and `buf` is left unchanged. The
/// count is in bytes for the live source and in characters for the
/// in-memory one (the two agree on ASCII text; only zero against nonzero
/// steers the processing loop). Reading only ever appends — whatever `buf`
/// held stays as a prefix — and a read fault surfaces as the input-fault
/// error. A source whose text is known — an in-memory one — also promises
/// exactly which line it hands out.
pub trait ReadData {
    /// The text this source has not delivered yet, when that is known: an
    /// in-memory source knows it, a live one does not.
    spec fn spec_remaining(&self) -> Option<Seq<char>>;

    fn read_line(&mut self, buf: &mut String) -> (r: Result<usize, TimelnError>)
        ensures
            old(buf)@.is_prefix_of(final(buf)@),
            forall|k: int|
                old(buf)@.len() <= k < final(buf)@.len() - 1 ==> final(buf)@[k] != '\n',
            r matches Ok(n) ==> (n == 0 <==> final(buf)@ == old(buf)@),
            r matches Err(e) ==> e is Io,
            old(self).spec_remaining() matches Some(rem) ==> ({
                &&& r matches Ok(n) && n == line_len(rem)
                &&& final(self).spec_remaining() == Some(rem.skip(line_len(rem) as int))
                &&& final(buf)@ == old(buf)@ + rem.take(line_len(rem) as int)
            }),
    ;
}

#[verifier::external_type_specification]
#[verifier::external_body]
pub struct ExStdinLock<'a>(std::io::StdinLock<'a>);

/// Reads lines from the standard input of the process.
pub struct StdinReadData {
    stdin: std::io::StdinLock<'static>,
}

impl StdinReadData {
    /// Relies on std::io::stdin: takes the process-wide lock on standard
    /// input, so this reader sees every line the process is fed.
    #[verifier::external_body]
    pub fn new() -> StdinReadData {
        StdinReadData { stdin: std::io::stdin().lock() }
    }

    /// Relies on std::io::BufRead::read_line: it only ever appends to
    /// `buf`, and at most one line — it stops at the first newline, so a
    /// newline can stand only as the last appended character; it answers
    /// the byte count of what it appended, Ok(0) exactly at end of input,
    /// then leaving `buf` unchanged; an I/O fault (a read error, or bytes
    /// that are not text) becomes the input-fault error, and `buf` may then
    /// hold part of a line already read.
    #[verifier::external_body]
    fn read_raw(&mut self, buf: &mut String) -> (r: Result<usize, TimelnError>)
        ensures
            old(buf)@.is_prefix_of(final(buf)@),
            forall|k: int|
                old(buf)@.len() <= k < final(buf)@.len() - 1 ==> final(buf)@[k] != '\n',
            r matches Ok(n) ==> (n == 0 <==> final(buf)@ == old(buf)@),
            r matches Err(e) ==> e is Io,
    {
        match std::io::BufRead::read_line(&mut self.stdin, buf) {
            Ok(n) => Ok(n),
            Err(e) => Err(TimelnError::Io(format!("{}", e))),
        }
    }
}

impl ReadData for StdinReadData {
    open spec fn spec_remaining(&self) -> Option<Seq<char>> {
        Option::None
    }

    fn read_line(&mut self, buf: &mut String) -> (r: Result<usize, TimelnError>) {
        self.read_raw(buf)
    }
}

/// The length of the first line of `rem`, counting its newline when present.
pub open spec fn line_len(rem: Seq<char>) -> nat
    decreases rem.len(),
{
    if rem.len() == 0 {
        0
    } else if rem[0] == '\n' {
        1
    } else {
        1 + line_len(rem.drop_first())
    }
}

/// A line never extends past the text it is read from.
pub proof fn lemma_line_len_le(rem: Seq<char>)
    ensures
        line_len(rem) <= rem.len(),
    decreases rem.len(),
{
    if rem.len() > 0 && rem[0] != '\n' {
        lemma_line_len_le(rem.drop_first());
    }
}

/// Within one line, only the final character can be the newline.
pub proof fn lemma_line_chars(rem: Seq<char>)
    ensures
        forall|k: int| 0 <= k < line_len(rem) - 1 ==> rem[k] != '\n',
    decreases rem.len(),
{
    if rem.len() > 0 && rem[0] != '\n' {
        lemma_line_chars(rem.drop_first());
        lemma_line_len_le(rem.drop_first());
        assert forall|k: int| 0 <= k < line_len(rem) - 1 implies rem[k] != '\n' by {
            if k > 0 {
                assert(rem.drop_first()[k - 1] == rem[k]);
            }
        }
    }
}

/// The lines of `rem`, in order, each including its newline when present.
pub open spec fn lines_of(rem: Seq<char>) -> Seq<Seq<char>>
    decreases rem.len(),
    via lines_of_decreases
{
    if rem.len() == 0 {
        seq![]
    } else {
        seq![rem.take(line_len(rem) as int)] + lines_of(rem.skip(line_len(rem) as int))
    }
}

#[via_fn]
proof fn lines_of_decreases(rem: Seq<char>) {
    lemma_line_len_le(rem);
}

proof fn lemma_line_len_scan(rem: Seq<char>, j: int)
    requires
        0 <= j <= rem.len(),
        forall|k: int| 0 <= k < j ==> rem[k] != '\n',
        j == rem.len() || rem[j] == '\n',
    ensures
        line_len(rem) == if j < rem.len() {
            j + 1
        } else {
            j
        },
    decreases rem.len(),
{
    if j > 0 {
        lemma_line_len_scan(rem.drop_first(), j - 1);
    }
}

/// Reads lines from a fixed in-memory text.
pub struct TestReadData {
    data: Vec<char>,
    pos: usize,
}

impl TestReadData {
    #[verifier::type_invariant]
    spec fn wf(&self) -> bool {
        self.pos <= self.data@.len()
    }

    /// The part of the text not read yet.
    pub closed spec fn remaining(&self) -> Seq<char> {
        self.data@.skip(self.pos as int)
    }

    /// A reader over the whole of `input`.
    pub fn new(input: &str) -> (r: TestReadData)
        ensures
            r.remaining() == input@,
    {
        let n = input.unicode_len();
        let mut data: Vec<char> = Vec::new();
        let mut i: usize = 0;
        while i < n
            invariant
                i <= n,
                n == input@.len(),
                data@ == input@.take(i as int),
            decreases n - i,
        {
            let c = input.get_char(i);
            data.push(c);
            proof {
                assert(data@ =~= input@.take(i as int + 1));
            }
            i = i + 1;
        }
        proof {
            assert(input@.take(n as int) =~= input@);
            assert(data@.skip(0) =~= data@);
        }
        TestReadData { data, pos: 0 }
    }

    /// Appends the next line of the text, including its newline when present,
    /// to `buf`; answers the number of characters appended — not bytes, a
    /// deliberate simplification that coincides with the byte count on
    /// ASCII text — zero exactly at the end of the text.
    pub fn read_line(&mut self, buf: &mut String) -> (r: Result<usize, TimelnError>)
        ensures
            r matches Ok(n) && n == line_len(old(self).remaining()),
            final(self).remaining() == old(self).remaining().skip(
                line_len(old(self).remaining()) as int,
            ),
            final(buf)@ == old(buf)@ + old(self).remaining().take(
                line_len(old(self).remaining()) as int,
            ),
    {
        proof {
            use_type_invariant(&*self);
        }
        let ghost data0 = self.data@;
        let ghost pos0 = self.pos as int;
        let ghost buf0 = buf@;
        let mut count: usize = 0;
        proof {
            assert(buf0 + data0.subrange(pos0, pos0) =~= buf0);
        }
        loop
            invariant_except_break
                self.data@ == data0,
                0 <= pos0 <= self.pos as int <= data0.len(),
                count as int == self.pos as int - pos0,
                buf@ == buf0 + data0.subrange(pos0, self.pos as int),
                forall|k: int| pos0 <= k < self.pos as int ==> data0[k] != '\n',
            ensures
                self.data@ == data0,
                0 <= pos0 <= self.pos as int <= data0.len(),
                count as int == self.pos as int - pos0,
                buf@ == buf0 + data0.subrange(pos0, self.pos as int),
                forall|k: int| pos0 <= k < self.pos as int - 1 ==> data0[k] != '\n',
                (self.pos as int == data0.len() && (self.pos as int == pos0 || data0[self.pos
                    as int - 1] != '\n')) || (self.pos as int > pos0 && data0[self.pos as int - 1]
                    == '\n'),
            decreases data0.len() - self.pos as int,
        {
            if self.pos == self.data.len() {
                break;
            }
            let c = self.data[self.pos];
            buf.push(c);
            self.pos = self.pos + 1;
            count = count + 1;
            proof {
                assert(buf@ =~= buf0 + data0.subrange(pos0, self.pos as int));
            }
            if c == '\n' {
                break;
            }
        }
        proof {
            let rem0 = data0.skip(pos0);
            let j = self.pos as int - pos0;
            if self.pos as int > pos0 && data0[self.pos as int - 1] == '\n' {
                lemma_line_len_scan(rem0, j - 1);
            } else {
                lemma_line_len_scan(rem0, j);
            }
            assert(line_len(rem0) == count as int);
            assert(self.remaining() =~= rem0.skip(count as int));
            assert(data0.subrange(pos0, self.pos as int) =~= rem0.take(count as int));
        }
        Ok(count)
    }
}

impl ReadData for TestReadData {
    open spec fn spec_remaining(&self) -> Option<Seq<char>> {
        Option::Some(self.remaining())
    }

    fn read_line(&mut self, buf: &mut String) -> (r: Result<usize, TimelnError>) {
        let ghost rem0 = self.remaining();
        let r = TestReadData::read_line(self, buf);
        proof {
            lemma_line_len_le(rem0);
            lemma_line_chars(rem0);
            if line_len(rem0) == 0 {
                assert(buf@ =~= old(buf)@);
            } else {
                assert(buf@.len() == old(buf)@.len() + line_len(rem0));
            }
            assert(buf@.subrange(0, old(buf)@.len() as int) =~= old(buf)@);
            assert forall|k: int|
                old(buf)@.len() <= k < buf@.len() - 1 implies buf@[k] != '\n' by {
                assert(buf@[k] == rem0.take(line_len(rem0) as int)[k - old(buf)@.len()]);
            }
        }
        r
    }
}

} // verus!
