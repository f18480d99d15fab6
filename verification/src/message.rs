//! Messages: reading and writing bytes and text over a session.
//!
//! The text operations treat the session as a byte stream. A failure of the
//! transport reaches their caller relayed: as an error of the catch-all kind
//! whose description is what the classified error prints as.
use crate::bindings::ViSession;
use crate::error::{is_success, Error, ErrorType};
use crate::session::{low32, low_u32, next_call, nul_error, settled, Session};
use crate::text::{contains_nul, trim_text, trimmed, utf8_text};
use crate::transport::{continues, Call, Link, Transport};
use vstd::prelude::*;
use vstd::string::StringSliceAdditionalSpecFns;
use vstd::utf8::{decode_utf8, valid_utf8};

verus! {

/// How many bytes one read of a text asks for.
pub const READ_CHUNK: u32 = 4096;

/// Whether `result` is what reading a text makes of the bytes collected: the
/// text they encode, trimmed where asked, or the error for bytes that are not
/// UTF-8.
pub open spec fn text_of(result: Result<String, Error>, bytes: Seq<u8>, trim: bool) -> bool {
    if valid_utf8(bytes) {
        result matches Ok(text) && text@ == if trim {
            trimmed(decode_utf8(bytes))
        } else {
            decode_utf8(bytes)
        }
    } else {
        result matches Err(error) && error.status == ErrorType::SystemError && error.text()
            == Some("stream did not contain valid UTF-8"@)
    }
}

/// Whether `result` is what reading a text to its end comes to, with
/// `collected` read so far and the trace going from `before` to `after`: one
/// read of a chunk follows; a failed read is relayed; an empty chunk ends the
/// text; any other chunk is collected and the reading goes on.
pub open spec fn received(
    result: Result<String, Error>,
    session: ViSession,
    before: Seq<Call>,
    after: Seq<Call>,
    collected: Seq<u8>,
    trim: bool,
) -> bool
    decreases after.len() - before.len(),
{
    &&& before.len() < after.len()
    &&& continues(before, after)
    &&& next_call(before, after) matches Call::Read { session: s, count, status, data }
    &&& s == session
    &&& count == READ_CHUNK
    &&& if !is_success(status) {
        result matches Err(error) && error.relays(
            status,
            session,
            before.push(next_call(before, after)),
            after,
        )
    } else if data.len() == 0 {
        after == before.push(next_call(before, after)) && text_of(result, collected, trim)
    } else {
        received(
            result,
            session,
            before.push(next_call(before, after)),
            after,
            collected + data,
            trim,
        )
    }
}

/// Whether `result` is what writing one text comes to: one write of its
/// bytes, whose failure is relayed.
pub open spec fn sent(
    result: Result<(), Error>,
    session: ViSession,
    bytes: Seq<u8>,
    before: Seq<Call>,
    after: Seq<Call>,
) -> bool {
    &&& before.len() < after.len()
    &&& continues(before, after)
    &&& next_call(before, after) matches Call::Write { session: s, data, status, written }
    &&& s == session
    &&& data == bytes
    &&& match result {
        Ok(()) => is_success(status) && after == before.push(next_call(before, after)),
        Err(error) => !is_success(status) && error.relays(
            status,
            session,
            before.push(next_call(before, after)),
            after,
        ),
    }
}

/// Whether `result` is what writing the texts in turn comes to: each is
/// written with one write, and the first failure, relayed, ends the writing.
pub open spec fn sent_all(
    result: Result<(), Error>,
    session: ViSession,
    texts: Seq<&str>,
    before: Seq<Call>,
    after: Seq<Call>,
) -> bool
    decreases texts.len(),
{
    if texts.len() == 0 {
        result is Ok && after == before
    } else {
        &&& before.len() < after.len()
        &&& continues(before, after)
        &&& next_call(before, after) matches Call::Write { session: s, data, status, written }
        &&& s == session
        &&& data == texts[0].spec_bytes()
        &&& if is_success(status) {
            sent_all(
                result,
                session,
                texts.drop_first(),
                before.push(next_call(before, after)),
                after,
            )
        } else {
            result matches Err(error) && error.relays(
                status,
                session,
                before.push(next_call(before, after)),
                after,
            )
        }
    }
}

/// Whether `result` is what a query comes to: the command is written; if that
/// fails the failure is relayed; otherwise the reply is read to its end and
/// trimmed.
pub open spec fn queried(
    result: Result<String, Error>,
    session: ViSession,
    command: Seq<u8>,
    before: Seq<Call>,
    after: Seq<Call>,
) -> bool {
    &&& before.len() < after.len()
    &&& next_call(before, after) matches Call::Write { session: s, data, status, written }
    &&& s == session
    &&& data == command
    &&& if is_success(status) {
        received(
            result,
            session,
            before.push(next_call(before, after)),
            after,
            Seq::empty(),
            true,
        )
    } else {
        result matches Err(error) && error.relays(
            status,
            session,
            before.push(next_call(before, after)),
            after,
        )
    }
}

/// A text that was read untrimmed is, once trimmed, what reading with
/// trimming comes to; a failure is the same either way.
pub proof fn lemma_received_trimmed(
    plain: Result<String, Error>,
    kept: Result<String, Error>,
    session: ViSession,
    before: Seq<Call>,
    after: Seq<Call>,
    collected: Seq<u8>,
)
    requires
        received(plain, session, before, after, collected, false),
        match plain {
            Ok(text) => kept matches Ok(short) && short@ == trimmed(text@),
            Err(error) => kept == plain,
        },
    ensures
        received(kept, session, before, after, collected, true),
    decreases after.len() - before.len(),
{
    let call = next_call(before, after);
    match call {
        Call::Read { session: s, count, status, data } => {
            if is_success(status) && data.len() != 0 {
                lemma_received_trimmed(
                    plain,
                    kept,
                    session,
                    before.push(call),
                    after,
                    collected + data,
                );
            }
        },
        _ => {},
    }
}

impl Session {
    /// Writes the bytes and says how many of them the transport took.
    pub fn write<T: Transport>(&self, link: &mut Link<T>, buf: &[u8]) -> (result: Result<
        usize,
        Error,
    >)
        ensures
            next_call(old(link).trace(), final(link).trace()) matches Call::Write {
                session,
                data,
                status,
                written,
            } && session == self.spec_session_id() && data == buf@ && settled(
                result,
                status,
                session,
                old(link).trace(),
                final(link).trace(),
            ) && (result matches Ok(count) ==> count == written),
    {
        let reply = link.write(self.session_id(), buf);
        Error::wrap_binding(Some(self.session_id()), reply.0, link)?;
        Ok(reply.1 as usize)
    }

    /// Reads at most `max_len` bytes, of which the low 32 bits are handed
    /// over, and hands back what the transport delivered.
    pub fn read<T: Transport>(&self, link: &mut Link<T>, max_len: usize) -> (result: Result<
        Vec<u8>,
        Error,
    >)
        ensures
            next_call(old(link).trace(), final(link).trace()) matches Call::Read {
                session,
                count,
                status,
                data,
            } && session == self.spec_session_id() && count == low32(max_len as int) && settled(
                result,
                status,
                session,
                old(link).trace(),
                final(link).trace(),
            ) && (result matches Ok(bytes) ==> bytes@ == data),
    {
        let reply = link.read(self.session_id(), low_u32(max_len));
        Error::wrap_binding(Some(self.session_id()), reply.0, link)?;
        Ok(reply.1)
    }

    /// Writes a text with one write. How many bytes the transport took is
    /// not looked at.
    pub fn write_string<T: Transport>(&self, link: &mut Link<T>, buf: &str) -> (result:
        Result<(), Error>)
        ensures
            sent(
                result,
                self.spec_session_id(),
                buf.spec_bytes(),
                old(link).trace(),
                final(link).trace(),
            ),
    {
        match self.write(link, buf.as_bytes()) {
            Ok(_) => Ok(()),
            Err(inner) => Err(Error::relayed(&inner)),
        }
    }

    /// Reads a text to its end: chunk after chunk until a chunk comes back
    /// empty, then the bytes are read as UTF-8.
    pub fn read_string<T: Transport>(&self, link: &mut Link<T>) -> (result: Result<
        String,
        Error,
    >)
        ensures
            received(
                result,
                self.spec_session_id(),
                old(link).trace(),
                final(link).trace(),
                Seq::empty(),
                false,
            ),
    {
        let ghost start = link.trace();
        let ghost vi = self.spec_session_id();
        let mut collected: Vec<u8> = Vec::new();
        loop
            invariant
                vi == self.spec_session_id(),
                start == old(link).trace(),
                forall|result: Result<String, Error>, after: Seq<Call>| #[trigger]
                    received(result, vi, link.trace(), after, collected@, false) ==> received(
                        result,
                        vi,
                        start,
                        after,
                        Seq::empty(),
                        false,
                    ),
            decreases usize::MAX - collected.len(),
        {
            let ghost before = link.trace();
            let ghost sofar = collected@;
            match self.read(link, READ_CHUNK as usize) {
                Err(inner) => {
                    let error = Error::relayed(&inner);
                    assert(received(Err(error), vi, before, link.trace(), sofar, false));
                    return Err(error);
                },
                Ok(mut chunk) => {
                    if chunk.len() == 0 {
                        let result = match utf8_text(collected) {
                            Some(text) => Ok(text),
                            None => Err(Error::from_msg("stream did not contain valid UTF-8")),
                        };
                        assert(received(result, vi, before, link.trace(), sofar, false));
                        return result;
                    }
                    let ghost data = chunk@;
                    collected.append(&mut chunk);
                    proof {
                        let now = link.trace();
                        assert(now == before.push(next_call(before, now)));
                        assert forall|result: Result<String, Error>, after: Seq<Call>| #[trigger]
                            received(result, vi, now, after, collected@, false) implies received(
                            result,
                            vi,
                            start,
                            after,
                            Seq::empty(),
                            false,
                        ) by {
                            assert(next_call(before, after) == next_call(before, now));
                            assert(received(result, vi, before, after, sofar, false));
                        }
                    }
                },
            }
        }
    }

    /// Writes the texts in turn, each with one write, and stops at the first
    /// that fails.
    pub fn write_all<T: Transport>(&self, link: &mut Link<T>, buf: &[&str]) -> (result:
        Result<(), Error>)
        ensures
            sent_all(
                result,
                self.spec_session_id(),
                buf@,
                old(link).trace(),
                final(link).trace(),
            ),
    {
        let ghost start = link.trace();
        let ghost vi = self.spec_session_id();
        let mut i: usize = 0;
        proof {
            assert(buf@.skip(0) =~= buf@);
        }
        while i < buf.len()
            invariant
                0 <= i <= buf.len(),
                vi == self.spec_session_id(),
                start == old(link).trace(),
                forall|result: Result<(), Error>, after: Seq<Call>| #[trigger]
                    sent_all(result, vi, buf@.skip(i as int), link.trace(), after) ==> sent_all(
                        result,
                        vi,
                        buf@,
                        start,
                        after,
                    ),
            decreases buf.len() - i,
        {
            let ghost before = link.trace();
            let ghost rest = buf@.skip(i as int);
            proof {
                assert(rest[0] == buf@[i as int]);
                assert(rest.drop_first() =~= buf@.skip(i + 1));
            }
            match self.write_string(link, buf[i]) {
                Err(error) => {
                    assert(sent_all(Err(error), vi, rest, before, link.trace()));
                    return Err(error);
                },
                Ok(()) => {
                    proof {
                        let now = link.trace();
                        assert forall|result: Result<(), Error>, after: Seq<Call>| #[trigger]
                            sent_all(result, vi, buf@.skip(i + 1), now, after) implies sent_all(
                            result,
                            vi,
                            buf@,
                            start,
                            after,
                        ) by {
                            if buf@.skip(i + 1).len() == 0 {
                                assert(after == now);
                            }
                            assert(continues(now, after));
                            assert(next_call(before, after) == next_call(before, now));
                            assert(sent_all(result, vi, rest, before, after));
                        }
                    }
                },
            }
            i += 1;
        }
        proof {
            assert(buf@.skip(i as int) =~= Seq::<&str>::empty());
            assert(sent_all(Ok(()), vi, buf@.skip(i as int), link.trace(), link.trace()));
        }
        Ok(())
    }

    /// Writes a command and reads the reply to its end, trimmed.
    pub fn query<T: Transport>(&self, link: &mut Link<T>, cmd: &str) -> (result: Result<
        String,
        Error,
    >)
        ensures
            queried(
                result,
                self.spec_session_id(),
                cmd.spec_bytes(),
                old(link).trace(),
                final(link).trace(),
            ),
    {
        let ghost before = link.trace();
        self.write_string(link, cmd)?;
        let ghost mid = link.trace();
        let reply = self.read_string(link);
        let result = match reply {
            Ok(text) => Ok(trim_text(text.as_str())),
            Err(error) => Err(error),
        };
        proof {
            lemma_received_trimmed(
                reply,
                result,
                self.spec_session_id(),
                mid,
                link.trace(),
                Seq::empty(),
            );
            assert(next_call(before, link.trace()) == next_call(before, mid));
        }
        result
    }

    /// Asks the device to identify itself.
    pub fn idn<T: Transport>(&self, link: &mut Link<T>) -> (result: Result<String, Error>)
        ensures
            queried(
                result,
                self.spec_session_id(),
                "*IDN?".spec_bytes(),
                old(link).trace(),
                final(link).trace(),
            ),
    {
        self.query(link, "*IDN?")
    }

    /// Sends `size` bytes of the named file, of which the low 32 bits are
    /// handed over. A name that holds a NUL is refused before anything is
    /// exchanged.
    pub fn write_from_file<T: Transport>(
        &self,
        link: &mut Link<T>,
        filename: &str,
        size: usize,
    ) -> (result: Result<(), Error>)
        ensures
            filename.spec_bytes().contains(0u8) ==> {
                &&& result matches Err(error)
                &&& error.status == ErrorType::InvParameter
                &&& error.text() == Some("Input contained a null byte"@)
                &&& final(link).trace() == old(link).trace()
            },
            !filename.spec_bytes().contains(0u8) ==> {
                &&& next_call(old(link).trace(), final(link).trace()) matches Call::WriteFromFile {
                    session,
                    path,
                    count,
                    status,
                    transferred,
                }
                &&& session == self.spec_session_id()
                &&& path == filename@
                &&& count == low32(size as int)
                &&& settled(result, status, session, old(link).trace(), final(link).trace())
            },
    {
        if contains_nul(filename.as_bytes()) {
            return Err(nul_error());
        }
        let reply = link.write_from_file(self.session_id(), filename, low_u32(size));
        Error::wrap_binding(Some(self.session_id()), reply.0, link)
    }

    /// Receives `size` bytes into the named file, of which the low 32 bits
    /// are handed over. A name that holds a NUL is refused before anything is
    /// exchanged.
    pub fn read_to_file<T: Transport>(
        &self,
        link: &mut Link<T>,
        filename: &str,
        size: usize,
    ) -> (result: Result<(), Error>)
        ensures
            filename.spec_bytes().contains(0u8) ==> {
                &&& result matches Err(error)
                &&& error.status == ErrorType::InvParameter
                &&& error.text() == Some("Input contained a null byte"@)
                &&& final(link).trace() == old(link).trace()
            },
            !filename.spec_bytes().contains(0u8) ==> {
                &&& next_call(old(link).trace(), final(link).trace()) matches Call::ReadToFile {
                    session,
                    path,
                    count,
                    status,
                    transferred,
                }
                &&& session == self.spec_session_id()
                &&& path == filename@
                &&& count == low32(size as int)
                &&& settled(result, status, session, old(link).trace(), final(link).trace())
            },
    {
        if contains_nul(filename.as_bytes()) {
            return Err(nul_error());
        }
        let reply = link.read_to_file(self.session_id(), filename, low_u32(size));
        Error::wrap_binding(Some(self.session_id()), reply.0, link)
    }
}

} // verus!
