//! The resource manager: the session under which every other session is
//! opened, and under which resources are found.
use crate::attribute::misc::InterfaceType;
use crate::attribute::traits::AsViReadable;
use crate::bindings::{ViFindList, ViSession};
use crate::error::{is_success, Error, ErrorType};
use crate::session::{next_call, nul_error, settled};
use crate::text::{contains_nul, decode_text, until_nul, utf8_lossy};
use crate::transport::{Call, Link, Transport};
use vstd::prelude::*;
use vstd::string::StringSliceAdditionalSpecFns;
use vstd::utf8::encode_utf8;

verus! {

/// The session of a resource manager.
pub type ResourceManagerSession = ViSession;

/// Where the one resource manager session is kept once it has been opened,
/// so that every later request shares it.
pub struct ManagerSlot {
    id: Option<ViSession>,
}

impl View for ManagerSlot {
    type V = Option<ViSession>;

    closed spec fn view(&self) -> Option<ViSession> {
        self.id
    }
}

impl ManagerSlot {
    /// A slot in which no resource manager has been opened yet.
    pub fn new() -> (slot: Self)
        ensures
            slot@ is None,
    {
        ManagerSlot { id: None }
    }
}

/// The resource manager session that was opened before, if any.
pub fn get_singleton_rm_id(slot: &ManagerSlot) -> (id: Option<ViSession>)
    ensures
        id == slot@,
{
    slot.id
}

/// Keeps a resource manager session for later requests.
pub fn set_singleton_rm_id(slot: &mut ManagerSlot, id: ViSession)
    ensures
        final(slot)@ == Some(id),
{
    slot.id = Some(id);
}

/// A resource manager, under which resources are found and sessions opened.
#[derive(Debug)]
pub struct ResourceManager(ViSession);

impl ResourceManager {
    /// The session of this resource manager.
    pub closed spec fn spec_session_id(&self) -> ResourceManagerSession {
        self.0
    }

    /// The resource manager. The first request opens the default resource
    /// manager and keeps its session in the slot; every later request shares
    /// that session and exchanges nothing.
    pub fn new<T: Transport>(link: &mut Link<T>, slot: &mut ManagerSlot) -> (manager: Result<
        Self,
        Error,
    >)
        ensures
            old(slot)@ matches Some(id) ==> {
                &&& manager matches Ok(m)
                &&& m.spec_session_id() == id
                &&& final(slot)@ == old(slot)@
                &&& final(link).trace() == old(link).trace()
            },
            old(slot)@ is None ==> {
                let call = final(link).trace()[old(link).trace().len() as int];
                &&& call matches Call::OpenDefaultRm { status, manager: opened }
                &&& final(link).trace() == old(link).trace().push(call)
                &&& match manager {
                    Ok(m) => is_success(status) && m.spec_session_id() == opened && final(slot)@
                        == Some(opened),
                    Err(error) => !is_success(status) && final(slot)@ is None && error.raised(
                        status,
                        None,
                        final(link).trace(),
                        final(link).trace(),
                    ),
                }
            },
    {
        if let Some(id) = get_singleton_rm_id(slot) {
            return Ok(ResourceManager(id));
        }
        let reply = link.open_default_rm();
        Error::wrap_binding(None, reply.0, link)?;
        set_singleton_rm_id(slot, reply.1);
        Ok(ResourceManager(reply.1))
    }

    /// The session of this resource manager.
    #[verifier::when_used_as_spec(spec_session_id)]
    pub fn session_id(&self) -> (id: ResourceManagerSession)
        ensures
            id == self.spec_session_id(),
    {
        self.0
    }

    /// Searches for the resources that match an expression.
    ///
    /// An expression that holds a NUL is refused before anything is
    /// exchanged. Otherwise one search is made. When it succeeds, the result
    /// stands for as many resources as were found, the first of which is the
    /// one whose name came back with the search.
    pub fn search<T: Transport>(&self, link: &mut Link<T>, expr: &str) -> (result: Result<
        ResourceSearchResult,
        Error,
    >)
        ensures
            expr.spec_bytes().contains(0u8) ==> {
                &&& result matches Err(error)
                &&& error.status == ErrorType::InvParameter
                &&& error.text() == Some("Input contained a null byte"@)
                &&& final(link).trace() == old(link).trace()
            },
            !expr.spec_bytes().contains(0u8) ==> {
                &&& next_call(old(link).trace(), final(link).trace()) matches Call::FindRsrc {
                    manager,
                    expr: asked,
                    status,
                    list,
                    count,
                    first,
                }
                &&& manager == self.spec_session_id()
                &&& asked == expr@
                &&& settled(result, status, manager, old(link).trace(), final(link).trace())
                &&& result matches Ok(found) ==> {
                    &&& found.manager() == manager
                    &&& found.list() == list
                    &&& found.remaining() == count
                    &&& count > 0 ==> found.upcoming() == Some(utf8_lossy(until_nul(first)))
                }
            },
    {
        if contains_nul(expr.as_bytes()) {
            return Err(nul_error());
        }
        let reply = link.find_rsrc(self.0, expr);
        Error::wrap_binding(Some(self.0), reply.0, link)?;
        if reply.2 == 0 {
            return Ok(ResourceSearchResult { rm: self.0, len: 0, list: reply.1, next: None });
        }
        Ok(
            ResourceSearchResult {
                rm: self.0,
                len: (reply.2 - 1) as usize,
                list: reply.1,
                next: Some(decode_text(reply.3.as_slice())),
            },
        )
    }
}

/// A resource that a search has found.
#[derive(Debug)]
pub struct Resource {
    interface: String,
    rm: ResourceManagerSession,
}

impl Resource {
    /// The name under which a session to this resource is opened.
    pub closed spec fn name(&self) -> Seq<char> {
        self.interface@
    }

    /// The resource manager that found this resource.
    pub closed spec fn manager(&self) -> ResourceManagerSession {
        self.rm
    }

    /// The resource of this name, as found under a resource manager.
    pub fn new(interface: String, rm: ResourceManagerSession) -> (resource: Self)
        ensures
            resource.name() == interface@,
            resource.manager() == rm,
    {
        Resource { interface, rm }
    }

    /// The name under which a session to this resource is opened.
    pub fn interface(&self) -> (name: &str)
        ensures
            name@ == self.name(),
    {
        self.interface.as_str()
    }

    /// The resource manager that found this resource.
    pub fn manager_id(&self) -> (id: ResourceManagerSession)
        ensures
            id == self.manager(),
    {
        self.rm
    }

    /// Parses the name of the resource.
    ///
    /// A name that holds a NUL is refused before anything is exchanged.
    /// Otherwise one parse is made under the resource manager. When it
    /// succeeds, the details are what came back: the interface type decoded,
    /// the board number as it is, the texts read leniently as C strings. An
    /// interface type that is not a known one gives the default error.
    pub fn get_details<T: Transport>(&self, link: &mut Link<T>) -> (result: Result<
        ResourceDetails,
        Error,
    >)
        ensures
            encode_utf8(self.name()).contains(0u8) ==> {
                &&& result matches Err(error)
                &&& error.status == ErrorType::InvParameter
                &&& error.text() == Some("Input contained a null byte"@)
                &&& final(link).trace() == old(link).trace()
            },
            !encode_utf8(self.name()).contains(0u8) ==> {
                let call = next_call(old(link).trace(), final(link).trace());
                &&& old(link).trace().len() < final(link).trace().len()
                &&& call matches Call::ParseRsrc {
                    manager,
                    name,
                    status,
                    interface_type,
                    board,
                    class,
                    expanded_name,
                    alias,
                }
                &&& manager == self.manager()
                &&& name == self.name()
                &&& if !is_success(status) {
                    result matches Err(error) && error.raised(
                        status,
                        Some(manager),
                        old(link).trace().push(call),
                        final(link).trace(),
                    )
                } else {
                    &&& final(link).trace() == old(link).trace().push(call)
                    &&& match InterfaceType::denoted(interface_type as int) {
                        Some(kind) => {
                            &&& result matches Ok(details)
                            &&& details.interface_type == kind
                            &&& details.board_number == board
                            &&& details.class@ == utf8_lossy(until_nul(class))
                            &&& details.expanded_name@ == utf8_lossy(until_nul(expanded_name))
                            &&& details.alias@ == utf8_lossy(until_nul(alias))
                        },
                        None => {
                            &&& result matches Err(error)
                            &&& error.status == ErrorType::SystemError
                            &&& error.text() is None
                        },
                    }
                }
            },
    {
        if contains_nul(self.interface.as_str().as_bytes()) {
            return Err(nul_error());
        }
        let reply = link.parse_rsrc(self.rm, self.interface.as_str());
        Error::wrap_binding(Some(self.rm), reply.0, link)?;
        let interface_type = match InterfaceType::from_vi(reply.1 as i64) {
            Some(kind) => kind,
            None => {
                return Err(Error::default());
            },
        };
        Ok(
            ResourceDetails {
                interface_type,
                board_number: reply.2,
                class: decode_text(reply.3.as_slice()),
                expanded_name: decode_text(reply.4.as_slice()),
                alias: decode_text(reply.5.as_slice()),
            },
        )
    }
}

/// What the transport knows of a resource name.
#[derive(Debug)]
pub struct ResourceDetails {
    /// The interface type.
    pub interface_type: InterfaceType,
    /// The board number of the interface.
    pub board_number: u16,
    /// The resource class, such as `INSTR`.
    pub class: String,
    /// The expanded name, which in most cases is the canonical resource name.
    pub expanded_name: String,
    /// The alias that the user gave the resource; empty where there is none.
    pub alias: String,
}

/// The resources that a search found, handed out one at a time.
#[derive(Debug)]
pub struct ResourceSearchResult {
    rm: ResourceManagerSession,
    len: usize,
    list: ViFindList,
    next: Option<String>,
}

impl ResourceSearchResult {
    /// The resource manager that made the search.
    pub closed spec fn manager(&self) -> ResourceManagerSession {
        self.rm
    }

    /// The list of results at the transport.
    pub closed spec fn list(&self) -> ViFindList {
        self.list
    }

    /// The name of the resource that is handed out next, if one is left.
    pub closed spec fn upcoming(&self) -> Option<Seq<char>> {
        match self.next {
            Some(name) => Some(name@),
            None => None,
        }
    }

    /// How many names are still to be fetched from the transport.
    pub closed spec fn unfetched(&self) -> nat {
        self.len as nat
    }

    /// How many resources are still to be handed out.
    pub open spec fn remaining(&self) -> nat {
        if self.upcoming() is Some {
            self.unfetched() + 1
        } else {
            0
        }
    }

    /// How many names are still to be fetched, where a resource is at hand.
    pub fn len(&self) -> (len: usize)
        ensures
            len == self.unfetched(),
    {
        self.len
    }

    /// Hands out the next resource.
    ///
    /// Where none is left, nothing is exchanged. Otherwise the resource at
    /// hand is handed out and, where names are still to be fetched, the next
    /// one is fetched; if that fetch fails, nothing is left.
    pub fn next<T: Transport>(&mut self, link: &mut Link<T>) -> (resource: Option<Resource>)
        ensures
            final(self).manager() == old(self).manager(),
            final(self).list() == old(self).list(),
            match old(self).upcoming() {
                None => {
                    &&& resource is None
                    &&& final(self).upcoming() is None
                    &&& final(link).trace() == old(link).trace()
                },
                Some(name) => {
                    &&& resource matches Some(found)
                    &&& found.name() == name
                    &&& found.manager() == old(self).manager()
                    &&& if old(self).unfetched() == 0 {
                        &&& final(self).upcoming() is None
                        &&& final(link).trace() == old(link).trace()
                    } else {
                        let call = final(link).trace().last();
                        &&& final(link).trace() == old(link).trace().push(call)
                        &&& call matches Call::FindNext { list, status, desc }
                        &&& list == old(self).list()
                        &&& if is_success(status) {
                            &&& final(self).upcoming() == Some(utf8_lossy(until_nul(desc)))
                            &&& final(self).unfetched() == old(self).unfetched() - 1
                        } else {
                            final(self).upcoming() is None
                        }
                    }
                },
            },
    {
        let current = match self.next.take() {
            Some(name) => Resource::new(name, self.rm),
            None => {
                return None;
            },
        };
        if self.len > 0 {
            let reply = link.find_next(self.list);
            if Error::succeeded(reply.0) {
                self.next = Some(decode_text(reply.1.as_slice()));
                self.len -= 1;
            }
        }
        Some(current)
    }
}

} // verus!
