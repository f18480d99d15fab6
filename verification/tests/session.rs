use libvisa::attribute::{
    AsrlParityType, AttrValue, AttributeType, RawKind, RawValue, UsbRecvIntrData,
};
use libvisa::bindings;
use libvisa::error::{Error, ErrorType};
use libvisa::event::{Event, EventDispatcher, EventRegistration, HandlingMechanism};
use libvisa::registry::AsyncTaskRegistry;
use libvisa::attribute::InterfaceType;
use libvisa::resource_manager::{
    get_singleton_rm_id, set_singleton_rm_id, ManagerSlot, Resource, ResourceManager,
};
use libvisa::session::{Buffer, Session, SessionOptions, TriggerProtocol};
use libvisa::task::{signal_completion, AsyncTask, TaskPoll, TaskState, COMPLETION_HANDLER};
use libvisa::time::TimeSpan;
use libvisa::transport::{Link, Transport};
use std::collections::{HashMap, VecDeque};

const TMO: i32 = -1073807339;

/// An instrument on the bench: it records every call, answers from what it
/// was loaded with, and fails the operations it was told to fail.
#[derive(Default)]
struct Bench {
    calls: Vec<String>,
    failing: HashMap<&'static str, i32>,
    replies: VecDeque<Vec<u8>>,
    attributes: HashMap<u32, u64>,
    texts: HashMap<u32, Vec<u8>>,
    timeout_step: u64,
    description: Vec<u8>,
    description_status: i32,
    access_key: Vec<u8>,
    status_byte: u16,
    next_session: u32,
    next_job: u32,
    found: VecDeque<Vec<u8>>,
    interface: u16,
    short_blocks: bool,
}

impl Bench {
    fn new() -> Self {
        Bench {
            description: b"as the bench sees it\0".to_vec(),
            next_session: 100,
            next_job: 40,
            ..Default::default()
        }
    }

    fn status(&mut self, name: &'static str, call: String) -> i32 {
        self.calls.push(call);
        self.failing.get(name).copied().unwrap_or(0)
    }
}

impl Transport for Bench {
    fn open_default_rm(&mut self) -> (i32, u32) {
        let status = self.status("open_default_rm", "open_default_rm".to_string());
        self.next_session += 1;
        (status, self.next_session)
    }

    fn open(&mut self, manager: u32, name: &str, mode: u32, timeout: u32) -> (i32, u32) {
        let status = self.status("open", format!("open {manager} {name} {mode} {timeout}"));
        self.next_session += 1;
        (status, self.next_session)
    }

    fn close(&mut self, session: u32) -> i32 {
        self.status("close", format!("close {session}"))
    }

    fn read(&mut self, session: u32, count: u32) -> (i32, Vec<u8>) {
        let status = self.status("read", format!("read {session} {count}"));
        if status != 0 {
            return (status, Vec::new());
        }
        (0, self.replies.pop_front().unwrap_or_default())
    }

    fn write(&mut self, session: u32, data: &[u8]) -> (i32, u32) {
        let text = String::from_utf8_lossy(data).into_owned();
        let status = self.status("write", format!("write {session} {text}"));
        let status = if text == "*BAD" { TMO } else { status };
        (status, data.len() as u32)
    }

    fn clear(&mut self, session: u32) -> i32 {
        self.status("clear", format!("clear {session}"))
    }

    fn set_buf(&mut self, session: u32, mask: u16, size: u32) -> i32 {
        self.status("set_buf", format!("set_buf {session} {mask} {size}"))
    }

    fn buf_write(&mut self, session: u32, data: &[u8]) -> (i32, u32) {
        let status = self.status("buf_write", format!("buf_write {session} {data:?}"));
        (status, data.len() as u32)
    }

    fn buf_read(&mut self, session: u32, count: u32) -> (i32, Vec<u8>) {
        let status = self.status("buf_read", format!("buf_read {session} {count}"));
        (status, self.replies.pop_front().unwrap_or_default())
    }

    fn flush(&mut self, session: u32, mask: u16) -> i32 {
        self.status("flush", format!("flush {session} {mask}"))
    }

    fn assert_trigger(&mut self, session: u32, protocol: u16) -> i32 {
        self.status("assert_trigger", format!("assert_trigger {session} {protocol}"))
    }

    fn read_stb(&mut self, session: u32) -> (i32, u16) {
        let status = self.status("read_stb", format!("read_stb {session}"));
        (status, self.status_byte)
    }

    fn get_attribute(&mut self, session: u32, attribute: u32, width: RawKind) -> (i32, RawValue) {
        let status =
            self.status("get_attribute", format!("get_attribute {session} {attribute:#x} {width:?}"));
        let state = self.attributes.get(&attribute).copied().unwrap_or(0);
        (status, width.narrow(state))
    }

    fn get_attribute_bytes(&mut self, session: u32, attribute: u32, length: usize) -> (i32, Vec<u8>) {
        let status = self.status(
            "get_attribute_bytes",
            format!("get_attribute_bytes {session} {attribute:#x} {length}"),
        );
        let mut buffer = self.texts.get(&attribute).cloned().unwrap_or_default();
        buffer.resize(if self.short_blocks { length / 2 } else { length }, 0);
        (status, buffer)
    }

    fn set_attribute(&mut self, session: u32, attribute: u32, state: u64) -> i32 {
        let status =
            self.status("set_attribute", format!("set_attribute {session} {attribute:#x} {state}"));
        if status == 0 {
            let stored = if attribute == bindings::VI_ATTR_TMO_VALUE && self.timeout_step > 0 {
                state.div_ceil(self.timeout_step) * self.timeout_step
            } else {
                state
            };
            self.attributes.insert(attribute, stored);
        }
        status
    }

    fn lock(
        &mut self,
        session: u32,
        lock_type: u32,
        timeout: u32,
        requested_key: Option<&str>,
    ) -> (i32, Vec<u8>) {
        let status =
            self.status("lock", format!("lock {session} {lock_type} {timeout} {requested_key:?}"));
        (status, self.access_key.clone())
    }

    fn unlock(&mut self, session: u32) -> i32 {
        self.status("unlock", format!("unlock {session}"))
    }

    fn enable_event(&mut self, session: u32, event_type: u32, mechanism: u16, filter: u32) -> i32 {
        self.status(
            "enable_event",
            format!("enable_event {session} {event_type:#x} {mechanism} {filter}"),
        )
    }

    fn disable_event(&mut self, session: u32, event_type: u32, mechanism: u16) -> i32 {
        self.status("disable_event", format!("disable_event {session} {event_type:#x} {mechanism}"))
    }

    fn discard_events(&mut self, session: u32, event_type: u32, mechanism: u16) -> i32 {
        self.status("discard_events", format!("discard_events {session} {event_type:#x} {mechanism}"))
    }

    fn install_handler(&mut self, session: u32, event_type: u32, handler: u32, user_data: u64) -> i32 {
        self.status(
            "install_handler",
            format!("install_handler {session} {event_type:#x} {handler} {user_data}"),
        )
    }

    fn uninstall_handler(
        &mut self,
        session: u32,
        event_type: u32,
        handler: u32,
        user_data: u64,
    ) -> i32 {
        self.status(
            "uninstall_handler",
            format!("uninstall_handler {session} {event_type:#x} {handler} {user_data}"),
        )
    }

    fn wait_on_event(&mut self, session: u32, event_type: u32, timeout: u32) -> (i32, u32) {
        let status =
            self.status("wait_on_event", format!("wait_on_event {session} {event_type:#x} {timeout}"));
        (status, 77)
    }

    fn read_async(&mut self, session: u32, count: u32) -> (i32, u32) {
        let status = self.status("read_async", format!("read_async {session} {count}"));
        self.next_job += 1;
        (status, self.next_job)
    }

    fn write_async(&mut self, session: u32, data: &[u8]) -> (i32, u32) {
        let status = self.status("write_async", format!("write_async {session} {data:?}"));
        self.next_job += 1;
        (status, self.next_job)
    }

    fn terminate(&mut self, session: u32, job: u32) -> i32 {
        self.status("terminate", format!("terminate {session} {job}"))
    }

    fn status_desc(&mut self, session: u32, code: i32) -> (i32, Vec<u8>) {
        self.calls.push(format!("status_desc {session} {code}"));
        (self.description_status, self.description.clone())
    }

    fn write_from_file(&mut self, session: u32, path: &str, count: u32) -> (i32, u32) {
        let status =
            self.status("write_from_file", format!("write_from_file {session} {path} {count}"));
        (status, count)
    }

    fn read_to_file(&mut self, session: u32, path: &str, count: u32) -> (i32, u32) {
        let status = self.status("read_to_file", format!("read_to_file {session} {path} {count}"));
        (status, count)
    }

    fn find_rsrc(&mut self, manager: u32, expr: &str) -> (i32, u32, u32, Vec<u8>) {
        let status = self.status("find_rsrc", format!("find_rsrc {manager} {expr}"));
        let count = self.found.len() as u32;
        (status, 900, count, self.found.pop_front().unwrap_or_default())
    }

    fn find_next(&mut self, list: u32) -> (i32, Vec<u8>) {
        let status = self.status("find_next", format!("find_next {list}"));
        (status, self.found.pop_front().unwrap_or_default())
    }

    fn parse_rsrc(
        &mut self,
        manager: u32,
        name: &str,
    ) -> (i32, u16, u16, Vec<u8>, Vec<u8>, Vec<u8>) {
        let status = self.status("parse_rsrc", format!("parse_rsrc {manager} {name}"));
        let mut expanded = name.as_bytes().to_vec();
        expanded.extend_from_slice(b"\0left over");
        (status, self.interface, 3, b"INSTR\0".to_vec(), expanded, vec![0; 8])
    }
}

fn opened(bench: Bench) -> (Link<Bench>, Session) {
    let mut link = Link::new(bench);
    let mut slot = ManagerSlot::new();
    let rm = ResourceManager::new(&mut link, &mut slot).unwrap();
    let session = Session::new(&mut link, &rm, "GPIB0::1::INSTR", SessionOptions::default()).unwrap();
    (link, session)
}

fn calls(link: &Link<Bench>) -> Vec<&str> {
    link.transport().calls.iter().map(|c| c.as_str()).collect()
}

fn calls_after_open(link: &Link<Bench>) -> Vec<&str> {
    calls(link)[2..].to_vec()
}

#[test]
fn test_singleton() {
    let mut link = Link::new(Bench::new());
    let mut slot = ManagerSlot::new();
    let rm1 = ResourceManager::new(&mut link, &mut slot).unwrap();
    let rm2 = ResourceManager::new(&mut link, &mut slot).unwrap();

    // Make sure they point to the same instance
    assert_eq!(rm1.session_id(), rm2.session_id());
}

#[test]
fn the_resource_manager_is_opened_once() {
    let mut link = Link::new(Bench::new());
    let mut slot = ManagerSlot::new();
    assert_eq!(get_singleton_rm_id(&slot), None);
    let rm = ResourceManager::new(&mut link, &mut slot).unwrap();
    assert_eq!(rm.session_id(), 101);
    assert_eq!(get_singleton_rm_id(&slot), Some(101));
    ResourceManager::new(&mut link, &mut slot).unwrap();
    ResourceManager::new(&mut link, &mut slot).unwrap();
    assert_eq!(calls(&link), vec!["open_default_rm"]);
    set_singleton_rm_id(&mut slot, 5);
    assert_eq!(ResourceManager::new(&mut link, &mut slot).unwrap().session_id(), 5);
}

#[test]
fn a_failed_resource_manager_is_not_kept() {
    let mut bench = Bench::new();
    bench.failing.insert("open_default_rm", bindings::VI_ERROR_LIBRARY_NFOUND);
    let mut link = Link::new(bench);
    let mut slot = ManagerSlot::new();
    let error = ResourceManager::new(&mut link, &mut slot).unwrap_err();
    assert_eq!(error.status, ErrorType::LibraryNfound);
    assert_eq!(error.description, None);
    assert_eq!(get_singleton_rm_id(&slot), None);
    assert_eq!(calls(&link), vec!["open_default_rm"]);
}

#[test]
fn resources_keep_their_name() {
    let resource = Resource::new("USB0::0x1234::INSTR".to_string(), 9);
    assert_eq!(resource.interface(), "USB0::0x1234::INSTR");
    assert_eq!(resource.manager_id(), 9);
}

fn manager(bench: Bench) -> (Link<Bench>, ResourceManager) {
    let mut link = Link::new(bench);
    let mut slot = ManagerSlot::new();
    let rm = ResourceManager::new(&mut link, &mut slot).unwrap();
    (link, rm)
}

#[test]
fn test_search() {
    let mut bench = Bench::new();
    bench.found.push_back(b"USB0::1::INSTR\0".to_vec());
    let mut link = Link::new(bench);
    let mut slot = ManagerSlot::new();
    let rm = ResourceManager::new(&mut link, &mut slot).expect("Failed to create resource manager");
    let _ = rm.search(&mut link, "?*").expect("Failed to search for devices");
}

#[test]
fn a_search_hands_out_every_resource_once() {
    let mut bench = Bench::new();
    bench.found.push_back(b"USB0::1::INSTR\0".to_vec());
    bench.found.push_back(b"GPIB0::2::INSTR\0garbage".to_vec());
    bench.found.push_back(b"ASRL3::INSTR".to_vec());
    let (mut link, rm) = manager(bench);
    let mut found = rm.search(&mut link, "?*").unwrap();
    assert_eq!(found.len(), 2);
    let mut names = Vec::new();
    while let Some(resource) = found.next(&mut link) {
        assert_eq!(resource.manager_id(), 101);
        names.push(resource.interface().to_string());
    }
    assert_eq!(names, ["USB0::1::INSTR", "GPIB0::2::INSTR", "ASRL3::INSTR"]);
    assert!(found.next(&mut link).is_none());
    assert_eq!(calls(&link), vec!["open_default_rm", "find_rsrc 101 ?*", "find_next 900", "find_next 900"]);
}

#[test]
fn a_single_match_is_handed_out() {
    let mut bench = Bench::new();
    bench.found.push_back(b"USB0::1::INSTR\0".to_vec());
    let (mut link, rm) = manager(bench);
    let mut found = rm.search(&mut link, "USB?*INSTR").unwrap();
    assert_eq!(found.next(&mut link).unwrap().interface(), "USB0::1::INSTR");
    assert!(found.next(&mut link).is_none());
    assert_eq!(calls(&link).len(), 2);
}

#[test]
fn a_failed_search_is_classified() {
    let mut bench = Bench::new();
    bench.failing.insert("find_rsrc", bindings::VI_ERROR_RSRC_NFOUND);
    let (mut link, rm) = manager(bench);
    let error = rm.search(&mut link, "?*").unwrap_err();
    assert_eq!(error.status, ErrorType::RsrcNfound);
    assert_eq!(error.description.as_deref(), Some("as the bench sees it"));
    let error = rm.search(&mut link, "a\0b").unwrap_err();
    assert_eq!(error.status, ErrorType::InvParameter);
    assert_eq!(calls(&link), vec!["open_default_rm", "find_rsrc 101 ?*", "status_desc 101 -1073807343"]);
}

#[test]
fn a_search_ends_where_the_next_name_cannot_be_fetched() {
    let mut bench = Bench::new();
    bench.found.push_back(b"A".to_vec());
    bench.found.push_back(b"B".to_vec());
    bench.found.push_back(b"C".to_vec());
    bench.failing.insert("find_next", bindings::VI_ERROR_INV_OBJECT);
    let (mut link, rm) = manager(bench);
    let mut found = rm.search(&mut link, "?*").unwrap();
    assert_eq!(found.next(&mut link).unwrap().interface(), "A");
    assert!(found.next(&mut link).is_none());
    let mut bench = Bench::new();
    bench.next_session = 100;
    let (mut link, rm) = manager(bench);
    let mut nothing = rm.search(&mut link, "?*").unwrap();
    assert!(nothing.next(&mut link).is_none());
}

#[test]
fn resource_names_are_parsed() {
    let mut bench = Bench::new();
    bench.interface = 7;
    let (mut link, rm) = manager(bench);
    let resource = Resource::new("USB0::0x1234::INSTR".to_string(), rm.session_id());
    let details = resource.get_details(&mut link).unwrap();
    assert_eq!(details.interface_type, InterfaceType::Usb);
    assert_eq!(details.board_number, 3);
    assert_eq!(details.class, "INSTR");
    assert_eq!(details.expanded_name, "USB0::0x1234::INSTR");
    assert_eq!(details.alias, "");
    assert_eq!(calls(&link)[1], "parse_rsrc 101 USB0::0x1234::INSTR");
    let mut bench = link.into_inner();
    bench.interface = 0;
    let mut link = Link::new(bench);
    let error = resource.get_details(&mut link).unwrap_err();
    assert_eq!(error.status, ErrorType::SystemError);
    assert_eq!(error.description, None);
    let mut bench = link.into_inner();
    bench.failing.insert("parse_rsrc", bindings::VI_ERROR_INV_RSRC_NAME);
    let mut link = Link::new(bench);
    assert_eq!(resource.get_details(&mut link).unwrap_err().status, ErrorType::InvRsrcName);
    let broken = Resource::new("US\0B".to_string(), 1);
    assert_eq!(broken.get_details(&mut link).unwrap_err().status, ErrorType::InvParameter);
}

#[test]
fn open_hands_over_mode_and_timeout() {
    let mut link = Link::new(Bench::new());
    let mut slot = ManagerSlot::new();
    let rm = ResourceManager::new(&mut link, &mut slot).unwrap();
    let plain = SessionOptions { timeout: TimeSpan::from_millis(500), ..Default::default() };
    let session = Session::new(&mut link, &rm, "ASRL1::INSTR", plain).unwrap();
    assert_eq!(session.session_id(), 102);
    let exclusive =
        SessionOptions { timeout: TimeSpan::from_secs(2), exclusive_lock: true, load_config: false };
    Session::new(&mut link, &rm, "ASRL1::INSTR", exclusive).unwrap();
    let both = SessionOptions {
        timeout: TimeSpan { secs: 0, nanos: 1_999_999 },
        exclusive_lock: true,
        load_config: true,
    };
    Session::new(&mut link, &rm, "ASRL1::INSTR", both).unwrap();
    let config = SessionOptions { load_config: true, ..Default::default() };
    Session::new(&mut link, &rm, "ASRL1::INSTR", config).unwrap();
    assert_eq!(
        calls(&link)[1..],
        [
            "open 101 ASRL1::INSTR 0 500",
            "open 101 ASRL1::INSTR 1 2000",
            "open 101 ASRL1::INSTR 5 1",
            "open 101 ASRL1::INSTR 4 0",
        ]
    );
    assert_eq!(both.access_mode(), 5);
    assert_eq!(Session::default().session_id(), 0);
}

#[test]
fn open_refuses_what_cannot_be_handed_over() {
    let mut link = Link::new(Bench::new());
    let mut slot = ManagerSlot::new();
    let rm = ResourceManager::new(&mut link, &mut slot).unwrap();
    let error = Session::new(&mut link, &rm, "GPIB0\0::1", SessionOptions::default()).unwrap_err();
    assert_eq!(error.status, ErrorType::InvParameter);
    assert_eq!(error.description.as_deref(), Some("Input contained a null byte"));
    let late = SessionOptions { timeout: TimeSpan::from_millis(1 << 32), ..Default::default() };
    let error = Session::new(&mut link, &rm, "GPIB0::1", late).unwrap_err();
    assert_eq!(error.status, ErrorType::SystemError);
    assert_eq!(error.description.as_deref(), Some("Timeout too large"));
    let last = SessionOptions { timeout: TimeSpan::from_millis(u32::MAX as u64), ..Default::default() };
    assert!(Session::new(&mut link, &rm, "GPIB0::1", last).is_ok());
    assert_eq!(calls(&link), vec!["open_default_rm", "open 101 GPIB0::1 0 4294967295"]);
}

#[test]
fn a_failed_open_has_no_description() {
    let mut bench = Bench::new();
    bench.failing.insert("open", bindings::VI_ERROR_RSRC_NFOUND);
    let mut link = Link::new(bench);
    let mut slot = ManagerSlot::new();
    let rm = ResourceManager::new(&mut link, &mut slot).unwrap();
    let error = Session::new(&mut link, &rm, "GPIB0::1", SessionOptions::default()).unwrap_err();
    assert_eq!(error.status, ErrorType::RsrcNfound);
    assert_eq!(error.description, None);
    assert_eq!(calls(&link).len(), 2);
}

#[test]
fn failures_are_classified_and_described() {
    let mut bench = Bench::new();
    bench.failing.insert("clear", TMO);
    let (mut link, session) = opened(bench);
    let error = session.clear(&mut link).unwrap_err();
    assert_eq!(error.status, ErrorType::Tmo);
    assert_eq!(error.description.as_deref(), Some("as the bench sees it"));
    assert_eq!(error.message(), "Timeout: as the bench sees it");
    assert_eq!(calls_after_open(&link), vec!["clear 102", "status_desc 102 -1073807339"]);
}

#[test]
fn a_failed_description_leaves_the_classification() {
    let mut bench = Bench::new();
    bench.failing.insert("unlock", bindings::VI_ERROR_SESN_NLOCKED);
    bench.description_status = bindings::VI_ERROR_INV_OBJECT;
    let (mut link, session) = opened(bench);
    let error = session.unlock(&mut link).unwrap_err();
    assert_eq!(error.status, ErrorType::SesnNlocked);
    assert_eq!(error.description, None);
}

#[test]
fn the_choke_point_passes_every_success_code() {
    let mut link = Link::new(Bench::new());
    assert!(Error::wrap_binding(Some(1), bindings::VI_SUCCESS_MAX_CNT, &mut link).is_ok());
    assert!(Error::wrap_binding(None, bindings::VI_SUCCESS_QUEUE_EMPTY, &mut link).is_ok());
    let error = Error::wrap_binding(None, 0x3FFF_0085, &mut link).unwrap_err();
    assert_eq!(error.status, ErrorType::SystemError);
    assert_eq!(error.description, None);
    assert!(calls(&link).is_empty());
    let error = Error::new(TMO, Some(8), &mut link);
    assert_eq!(error.status, ErrorType::Tmo);
    assert_eq!(calls(&link), vec!["status_desc 8 -1073807339"]);
    let fine = Error::new(0, Some(8), &mut link);
    assert_eq!(fine.status, ErrorType::SystemError);
    assert_eq!(fine.description, None);
    assert_eq!(calls(&link).len(), 1);
}

#[test]
fn pass_through_operations_hand_over_their_arguments() {
    let (mut link, session) = opened(Bench::new());
    session.clear(&mut link).unwrap();
    session.assert_trigger(&mut link, TriggerProtocol::Default).unwrap();
    session.assert_trigger(&mut link, TriggerProtocol::Sync).unwrap();
    session.assert_trigger(&mut link, TriggerProtocol::Unreserve).unwrap();
    session.lock(&mut link, TimeSpan::from_millis(1500)).unwrap();
    session.lock(&mut link, TimeSpan::from_millis((1 << 32) + 7)).unwrap();
    session.unlock(&mut link).unwrap();
    session.close(&mut link).unwrap();
    assert_eq!(
        calls_after_open(&link),
        vec![
            "clear 102",
            "assert_trigger 102 0",
            "assert_trigger 102 5",
            "assert_trigger 102 7",
            "lock 102 1 1500 None",
            "lock 102 1 7 None",
            "unlock 102",
            "close 102",
        ]
    );
    assert_eq!(TriggerProtocol::On.code(), 1);
    assert_eq!(TriggerProtocol::Off.code(), 2);
    assert_eq!(TriggerProtocol::Reserve.code(), 6);
}

#[test]
fn buffers_are_selected_by_their_masks() {
    let (mut link, session) = opened(Bench::new());
    session.set_read_buffer(&mut link, 64).unwrap();
    session.set_write_buffer(&mut link, 65).unwrap();
    session.set_rw_buffer(&mut link, 66).unwrap();
    session.set_io_in_buffer(&mut link, 67).unwrap();
    session.set_io_out_buffer(&mut link, 68).unwrap();
    session.set_io_buffer(&mut link, 69).unwrap();
    session.flush_read_buffer(&mut link, false).unwrap();
    session.flush_read_buffer(&mut link, true).unwrap();
    session.flush_write_buffer(&mut link, false).unwrap();
    session.flush_write_buffer(&mut link, true).unwrap();
    session.flush_io_in_buffer(&mut link, false).unwrap();
    session.flush_io_in_buffer(&mut link, true).unwrap();
    session.flush_io_out_buffer(&mut link, false).unwrap();
    session.flush_io_out_buffer(&mut link, true).unwrap();
    assert_eq!(
        calls_after_open(&link),
        vec![
            "set_buf 102 1 64",
            "set_buf 102 2 65",
            "set_buf 102 3 66",
            "set_buf 102 16 67",
            "set_buf 102 32 68",
            "set_buf 102 48 69",
            "flush 102 1",
            "flush 102 4",
            "flush 102 2",
            "flush 102 8",
            "flush 102 16",
            "flush 102 64",
            "flush 102 32",
            "flush 102 128",
        ]
    );
    assert_eq!(Buffer::IoOut.flush_mask(true), 128);
}

#[test]
fn buffered_transfers_carry_their_bytes() {
    let mut bench = Bench::new();
    bench.replies.push_back(vec![1, 2, 3]);
    let (mut link, session) = opened(bench);
    session.buffer_write(&mut link, &[9, 8]).unwrap();
    assert_eq!(session.buffer_read(&mut link, 16).unwrap(), vec![1, 2, 3]);
    assert_eq!(calls_after_open(&link), vec!["buf_write 102 [9, 8]", "buf_read 102 16"]);
}

#[test]
fn the_status_byte_is_the_low_byte() {
    let mut bench = Bench::new();
    bench.status_byte = 0x0150;
    let (mut link, session) = opened(bench);
    assert_eq!(session.read_status(&mut link).unwrap(), 0x50);
}

#[test]
fn scenario_identify_the_instrument() {
    let mut bench = Bench::new();
    bench.replies.push_back(b"VENDOR,MODEL123,SN001,1.0".to_vec());
    let mut link = Link::new(bench);
    let mut slot = ManagerSlot::new();
    let rm = ResourceManager::new(&mut link, &mut slot).unwrap();
    let options = SessionOptions { timeout: TimeSpan::from_millis(500), ..Default::default() };
    let session = Session::new(&mut link, &rm, "USB0::INSTR", options).unwrap();
    session.write_string(&mut link, "*IDN?").unwrap();
    let idn = session.read_string(&mut link).unwrap();
    let fields: Vec<&str> = idn.split(',').collect();
    let model = fields[1];
    assert!(!model.is_empty());
    assert_eq!(model, "MODEL123");
    assert_eq!(
        calls(&link),
        vec![
            "open_default_rm",
            "open 101 USB0::INSTR 0 500",
            "write 102 *IDN?",
            "read 102 4096",
            "read 102 4096",
        ]
    );
}

#[test]
fn texts_are_read_to_their_end() {
    let mut bench = Bench::new();
    bench.replies.push_back(b"  one".to_vec());
    bench.replies.push_back(b" two\r\n".to_vec());
    let (mut link, session) = opened(bench);
    assert_eq!(session.read_string(&mut link).unwrap(), "  one two\r\n");
    assert_eq!(calls_after_open(&link).len(), 3);
    assert_eq!(session.read_string(&mut link).unwrap(), "");
}

#[test]
fn queries_trim_the_reply() {
    let mut bench = Bench::new();
    bench.replies.push_back(b"  ACME,X1 \r\n".to_vec());
    let (mut link, mut session) = opened(bench);
    assert_eq!(session.idn(&mut link).unwrap(), "ACME,X1");
    assert_eq!(calls_after_open(&link)[0], "write 102 *IDN?");
    link = {
        let mut bench = link.into_inner();
        bench.replies.push_back(b"\t42\n".to_vec());
        Link::new(bench)
    };
    assert_eq!(session.query(&mut link, "MEAS?").unwrap(), "42");
    session = session;
    let _ = session;
}

#[test]
fn trimming_removes_white_space_and_nothing_else() {
    let white = "\u{9}\u{a}\u{b}\u{c}\u{d} \u{85}\u{a0}\u{1680}\u{2000}\u{200a}\u{2028}\u{2029}\u{202f}\u{205f}\u{3000}";
    let mut bench = Bench::new();
    bench.replies.push_back(format!("{white}a b{white}").into_bytes());
    bench.replies.push_back(Vec::new());
    bench.replies.push_back("\u{200b}x\u{180e}".as_bytes().to_vec());
    bench.replies.push_back(Vec::new());
    bench.replies.push_back(white.as_bytes().to_vec());
    let (mut link, session) = opened(bench);
    assert_eq!(session.query(&mut link, "A?").unwrap(), "a b");
    assert_eq!(session.query(&mut link, "B?").unwrap(), "\u{200b}x\u{180e}");
    assert_eq!(session.query(&mut link, "C?").unwrap(), "");
}

#[test]
fn a_reply_that_is_not_utf8_is_refused() {
    let mut bench = Bench::new();
    bench.replies.push_back(vec![b'a', 0xFF]);
    let (mut link, session) = opened(bench);
    let error = session.read_string(&mut link).unwrap_err();
    assert_eq!(error.status, ErrorType::SystemError);
    assert_eq!(error.description.as_deref(), Some("stream did not contain valid UTF-8"));
}

#[test]
fn stream_failures_are_relayed() {
    let mut bench = Bench::new();
    bench.failing.insert("read", TMO);
    let (mut link, session) = opened(bench);
    let error = session.read_string(&mut link).unwrap_err();
    assert_eq!(error.status, ErrorType::SystemError);
    assert_eq!(error.description.as_deref(), Some("Timeout: as the bench sees it"));
    let error = session.read(&mut link, 10).unwrap_err();
    assert_eq!(error.status, ErrorType::Tmo);
    let error = session.query(&mut link, "*BAD").unwrap_err();
    assert_eq!(error.status, ErrorType::SystemError);
    assert_eq!(error.description.as_deref(), Some("Timeout: as the bench sees it"));
    assert_eq!(calls(&link).last().copied(), Some("status_desc 102 -1073807339"));
}

#[test]
fn write_all_stops_at_the_first_failure() {
    let (mut link, session) = opened(Bench::new());
    session.write_all(&mut link, &["*RST", "*CLS", ":AUTOSCALE"]).unwrap();
    session.write_all(&mut link, &[]).unwrap();
    let error = session.write_all(&mut link, &["A", "*BAD", "B"]).unwrap_err();
    assert_eq!(error.status, ErrorType::SystemError);
    assert_eq!(error.description.as_deref(), Some("Timeout: as the bench sees it"));
    assert_eq!(
        calls_after_open(&link),
        vec![
            "write 102 *RST",
            "write 102 *CLS",
            "write 102 :AUTOSCALE",
            "write 102 A",
            "write 102 *BAD",
            "status_desc 102 -1073807339",
        ]
    );
    assert_eq!(session.write(&mut link, b"abc").unwrap(), 3);
    assert_eq!(session.write(&mut link, b"*BAD").unwrap_err().status, ErrorType::Tmo);
}

#[test]
fn file_transfers_hand_over_name_and_size() {
    let (mut link, session) = opened(Bench::new());
    session.write_from_file(&mut link, "wave.bin", 1024).unwrap();
    session.read_to_file(&mut link, "dump.bin", 16).unwrap();
    let error = session.write_from_file(&mut link, "wa\0ve", 4).unwrap_err();
    assert_eq!(error.status, ErrorType::InvParameter);
    assert!(session.read_to_file(&mut link, "\0", 4).is_err());
    assert_eq!(
        calls_after_open(&link),
        vec!["write_from_file 102 wave.bin 1024", "read_to_file 102 dump.bin 16"]
    );
}

#[test]
fn scenario_timeout_is_read_back_as_in_effect() {
    let mut bench = Bench::new();
    bench.timeout_step = 100;
    let (mut link, session) = opened(bench);
    let asked = AttrValue::Timeout(TimeSpan::from_millis(250));
    session.set_attribute(&mut link, AttributeType::TmoValue, asked).unwrap();
    let effective = session.get_attribute(&mut link, AttributeType::TmoValue).unwrap();
    let in_effect = link.transport().attributes[&bindings::VI_ATTR_TMO_VALUE];
    assert_eq!(in_effect, 300);
    assert_eq!(effective, AttrValue::Timeout(TimeSpan::from_millis(in_effect)));
    match (effective, asked) {
        (AttrValue::Timeout(e), AttrValue::Timeout(a)) => assert!(!a.exceeds(e)),
        _ => unreachable!(),
    }
    assert_eq!(
        calls_after_open(&link),
        vec!["set_attribute 102 0x3fff001a 250", "get_attribute 102 0x3fff001a U32"]
    );
}

#[test]
fn a_timeout_is_read_back_unchanged_where_it_is_not_rounded() {
    let (mut link, session) = opened(Bench::new());
    let asked = AttrValue::Timeout(TimeSpan::from_millis(250));
    session.set_attribute(&mut link, AttributeType::TmoValue, asked).unwrap();
    assert_eq!(session.get_attribute(&mut link, AttributeType::TmoValue).unwrap(), asked);
}

#[test]
fn read_only_attributes_are_refused_before_the_transport() {
    let (mut link, session) = opened(Bench::new());
    let error =
        session.set_attribute(&mut link, AttributeType::IntfNum, AttrValue::U16(1)).unwrap_err();
    assert_eq!(error.status, ErrorType::AttrReadonly);
    assert_eq!(error.description, None);
    let error =
        session.set_attribute(&mut link, AttributeType::TmoValue, AttrValue::U16(1)).unwrap_err();
    assert_eq!(error.status, ErrorType::NsupAttrState);
    let error =
        session.set_attribute(&mut link, AttributeType::JobId, AttrValue::U32(1)).unwrap_err();
    assert_eq!(error.status, ErrorType::NsupAttr);
    let error = session.get_attribute(&mut link, AttributeType::RsrcName).unwrap_err();
    assert_eq!(error.status, ErrorType::NsupAttr);
    assert!(calls_after_open(&link).is_empty());
}

#[test]
fn garbage_from_the_device_is_told_from_a_rejected_request() {
    let mut bench = Bench::new();
    bench.attributes.insert(bindings::VI_ATTR_ASRL_PARITY, 99);
    let (mut link, session) = opened(bench);
    let garbage = session.get_attribute(&mut link, AttributeType::AsrlParity).unwrap_err();
    assert_eq!(garbage.status, ErrorType::NsupAttrState);
    assert_eq!(garbage.description.as_deref(), Some("Raw value outside the domain of the attribute"));
    assert_eq!(calls_after_open(&link), vec!["get_attribute 102 0x3fff0023 U16"]);
    let mut bench = link.into_inner();
    bench.failing.insert("get_attribute", bindings::VI_ERROR_NSUP_ATTR);
    let mut link = Link::new(bench);
    let rejected = session.get_attribute(&mut link, AttributeType::AsrlParity).unwrap_err();
    assert_eq!(rejected.status, ErrorType::NsupAttr);
    assert_eq!(rejected.description.as_deref(), Some("as the bench sees it"));
}

#[test]
fn attributes_are_read_in_their_width() {
    let mut bench = Bench::new();
    bench.attributes.insert(bindings::VI_ATTR_ASRL_PARITY, 1);
    bench.attributes.insert(bindings::VI_ATTR_GPIB_HS488_CBL_LEN, u64::MAX);
    bench.attributes.insert(bindings::VI_ATTR_USB_RECV_INTR_SIZE, 12);
    let (mut link, session) = opened(bench);
    assert_eq!(
        session.get_attribute(&mut link, AttributeType::AsrlParity).unwrap(),
        AttrValue::Parity(AsrlParityType::Odd)
    );
    assert_eq!(
        session.get_attribute_raw(&mut link, bindings::VI_ATTR_GPIB_HS488_CBL_LEN, RawKind::I16).unwrap(),
        RawValue::I16(-1)
    );
    session.set_attribute_raw(&mut link, 0x3FFF_0177, 3).unwrap();
    assert_eq!(UsbRecvIntrData::<12>::get_required_size(&session, &mut link).unwrap(), 12);
    assert_eq!(
        calls_after_open(&link),
        vec![
            "get_attribute 102 0x3fff0023 U16",
            "get_attribute 102 0x3fff0069 I16",
            "set_attribute 102 0x3fff0177 3",
            "get_attribute 102 0x3fff41b0 U16",
        ]
    );
}

#[test]
fn string_attributes_are_read_leniently() {
    let mut bench = Bench::new();
    bench.texts.insert(bindings::VI_ATTR_RSRC_NAME, b"GPIB0::1::INSTR\0tail".to_vec());
    bench.texts.insert(bindings::VI_ATTR_MODEL_NAME, vec![b'M', 0xFF, b'1']);
    let (mut link, session) = opened(bench);
    assert_eq!(session.get_text_attribute(&mut link, AttributeType::RsrcName).unwrap(), "GPIB0::1::INSTR");
    assert_eq!(session.get_text_attribute(&mut link, AttributeType::ModelName).unwrap(), "M\u{FFFD}1");
    assert_eq!(session.get_text_attribute(&mut link, AttributeType::TcpipAddr).unwrap(), "");
    let error = session.get_text_attribute(&mut link, AttributeType::TmoValue).unwrap_err();
    assert_eq!(error.status, ErrorType::NsupAttr);
    assert_eq!(calls_after_open(&link)[0], "get_attribute_bytes 102 0xbfff0002 256");
    assert_eq!(calls_after_open(&link).len(), 3);
}

#[test]
fn a_shared_lock_hands_back_its_key() {
    let mut bench = Bench::new();
    bench.access_key = b"key-in-effect\0rest".to_vec();
    let (mut link, session) = opened(bench);
    let key = session.lock_shared(&mut link, TimeSpan::from_millis(20), "wanted").unwrap();
    assert_eq!(key, "key-in-effect");
    assert_eq!(calls_after_open(&link), vec!["lock 102 2 20 Some(\"wanted\")"]);
    let error = session.lock_shared(&mut link, TimeSpan::from_millis(20), "wan\0ted").unwrap_err();
    assert_eq!(error.status, ErrorType::InvParameter);
    assert_eq!(calls_after_open(&link).len(), 1);
}

#[test]
fn a_key_that_is_not_utf8_is_refused() {
    let mut bench = Bench::new();
    bench.access_key = vec![0xC0, 0x80, 0];
    let (mut link, session) = opened(bench);
    let error = session.lock_shared(&mut link, TimeSpan::from_millis(20), "").unwrap_err();
    assert_eq!(error.status, ErrorType::SystemError);
    assert_eq!(error.description.as_deref(), Some("Invalid lock key"));
}

#[test]
fn events_are_enabled_by_type_and_mechanism() {
    let (mut link, session) = opened(Bench::new());
    session.enable_event(&mut link, Event::ServiceReq, HandlingMechanism::Queue, 0).unwrap();
    session.disable_event(&mut link, Event::ServiceReq, HandlingMechanism::Handler).unwrap();
    session.discard_events(&mut link, Event::All, HandlingMechanism::SuspendHandler).unwrap();
    assert_eq!(session.wait_on_event(&mut link, Event::ServiceReq, TimeSpan::from_secs(1)).unwrap(), 77);
    assert_eq!(
        calls_after_open(&link),
        vec![
            "enable_event 102 0x3fff200b 1 0",
            "disable_event 102 0x3fff200b 2",
            "discard_events 102 0x3fff7fff 4",
            "wait_on_event 102 0x3fff200b 1000",
        ]
    );
}

#[test]
fn handlers_are_entered_once_the_transport_accepts_them() {
    let (mut link, session) = opened(Bench::new());
    let mut dispatcher = EventDispatcher::new();
    session.add_event_handler(&mut link, &mut dispatcher, Event::Trig, 3, 11).unwrap();
    let entered = EventRegistration { session: 102, event_type: Event::Trig, handler: 3, user_data: 11 };
    assert!(dispatcher.is_installed(entered));
    let mut bench = link.into_inner();
    bench.failing.insert("install_handler", bindings::VI_ERROR_INV_HNDLR_REF);
    bench.failing.insert("uninstall_handler", bindings::VI_ERROR_HNDLR_NINSTALLED);
    let mut link = Link::new(bench);
    let error = session.add_event_handler(&mut link, &mut dispatcher, Event::Trig, 4, 11).unwrap_err();
    assert_eq!(error.status, ErrorType::InvHndlrRef);
    assert_eq!(dispatcher.handlers_for(102, Event::Trig), vec![entered]);
    let error = session.remove_event_handler(&mut link, &mut dispatcher, Event::Trig, 3, 11).unwrap_err();
    assert_eq!(error.status, ErrorType::HndlrNinstalled);
    assert!(dispatcher.is_installed(entered));
    let mut bench = link.into_inner();
    bench.failing.clear();
    let mut link = Link::new(bench);
    session.remove_event_handler(&mut link, &mut dispatcher, Event::Trig, 3, 11).unwrap();
    assert!(!dispatcher.is_installed(entered));
}

fn ready_ok(poll: &TaskPoll) -> bool {
    matches!(poll, TaskPoll::Ready(Ok(())))
}

fn ready_timeout(poll: &TaskPoll) -> bool {
    match poll {
        TaskPoll::Ready(Err(error)) => {
            error.status == ErrorType::Tmo && error.description.as_deref() == Some("Async IO Timeout")
        }
        _ => false,
    }
}

fn start_read(link: &mut Link<Bench>, session: &Session, dispatcher: &mut EventDispatcher) -> AsyncTask {
    session.read_async(link, dispatcher, 256, TimeSpan::from_secs(1)).unwrap()
}

#[test]
fn a_task_stays_pending_until_completion_or_timeout() {
    let (mut link, session) = opened(Bench::new());
    let mut dispatcher = EventDispatcher::new();
    let mut registry = AsyncTaskRegistry::new();
    let mut task = start_read(&mut link, &session, &mut dispatcher);
    assert_eq!(task.state(), TaskState::Pending);
    assert_eq!(task.job_id(), 41);
    assert_eq!(task.session_id(), 102);
    assert!(matches!(task.poll_at(&mut registry, TimeSpan::from_millis(10)), TaskPoll::Pending));
    assert!(matches!(task.poll_at(&mut registry, TimeSpan::from_secs(1)), TaskPoll::Pending));
    assert_eq!(task.state(), TaskState::Pending);
    assert!(matches!(task.poll(&mut registry), TaskPoll::Pending));
    assert_eq!(
        calls_after_open(&link),
        vec!["read_async 102 256", "install_handler 102 0x3fff2009 0 41"]
    );
}

#[test]
fn a_task_times_out_after_its_timeout() {
    let (mut link, session) = opened(Bench::new());
    let mut dispatcher = EventDispatcher::new();
    let mut registry = AsyncTaskRegistry::new();
    let mut task = start_read(&mut link, &session, &mut dispatcher);
    let poll = task.poll_at(&mut registry, TimeSpan { secs: 1, nanos: 1 });
    assert!(ready_timeout(&poll));
    assert_eq!(task.state(), TaskState::TimedOut);
    // The state is final: a late completion changes nothing.
    registry.mark_done(102, 41);
    assert!(ready_timeout(&task.poll_at(&mut registry, TimeSpan::from_millis(0))));
    assert!(registry.is_done(102, 41));
    assert_eq!(task.state(), TaskState::TimedOut);
}

#[test]
fn a_task_completes_when_the_registry_records_it() {
    let (mut link, session) = opened(Bench::new());
    let mut dispatcher = EventDispatcher::new();
    let mut registry = AsyncTaskRegistry::new();
    let mut task = session.write_async(&mut link, &mut dispatcher, b"data", TimeSpan::from_secs(1)).unwrap();
    assert_eq!(signal_completion(&dispatcher, &mut registry, 102, 0x3FFF_2009, 41), 0);
    // Completion wins over the timeout.
    assert!(ready_ok(&task.poll_at(&mut registry, TimeSpan::from_secs(5))));
    assert_eq!(task.state(), TaskState::Completed);
    assert!(!registry.is_done(102, 41));
    assert!(ready_ok(&task.poll_at(&mut registry, TimeSpan::from_secs(9))));
    assert!(ready_ok(&task.poll(&mut registry)));
    assert_eq!(calls_after_open(&link)[0], "write_async 102 [100, 97, 116, 97]");
}

#[test]
fn the_clock_decides_a_poll() {
    let (mut link, session) = opened(Bench::new());
    let mut dispatcher = EventDispatcher::new();
    let mut registry = AsyncTaskRegistry::new();
    let mut patient = session.read_async(&mut link, &mut dispatcher, 1, TimeSpan::from_secs(3600)).unwrap();
    assert!(matches!(patient.poll(&mut registry), TaskPoll::Pending));
    let mut hasty = session.read_async(&mut link, &mut dispatcher, 1, TimeSpan::default()).unwrap();
    let mut polls = 0u64;
    while matches!(hasty.poll(&mut registry), TaskPoll::Pending) {
        polls += 1;
        assert!(polls < 100_000_000);
    }
    assert_eq!(hasty.state(), TaskState::TimedOut);
    assert_eq!(patient.state(), TaskState::Pending);
}

#[test]
fn jobs_of_one_session_are_independent() {
    let (mut link, session) = opened(Bench::new());
    let mut dispatcher = EventDispatcher::new();
    let mut registry = AsyncTaskRegistry::new();
    let mut first = start_read(&mut link, &session, &mut dispatcher);
    let mut second = start_read(&mut link, &session, &mut dispatcher);
    signal_completion(&dispatcher, &mut registry, 102, 0x3FFF_2009, second.job_id());
    assert!(matches!(first.poll_at(&mut registry, TimeSpan::default()), TaskPoll::Pending));
    assert!(ready_ok(&second.poll_at(&mut registry, TimeSpan::default())));
    assert_eq!(first.state(), TaskState::Pending);
}

#[test]
fn a_signal_without_a_handler_marks_nothing() {
    let dispatcher = EventDispatcher::new();
    let mut registry = AsyncTaskRegistry::new();
    assert_eq!(signal_completion(&dispatcher, &mut registry, 102, 0x3FFF_2009, 41), 0);
    assert!(!registry.is_done(102, 41));
    assert_eq!(
        signal_completion(&dispatcher, &mut registry, 102, 5, 41),
        bindings::VI_ERROR_INV_EVENT
    );
    assert_eq!(COMPLETION_HANDLER, 0);
}

#[test]
fn scenario_terminate_at_once() {
    let (mut link, session) = opened(Bench::new());
    let mut dispatcher = EventDispatcher::new();
    let mut registry = AsyncTaskRegistry::new();
    let mut task = session.read_async(&mut link, &mut dispatcher, 256, TimeSpan::from_secs(1)).unwrap();
    task.terminate(&mut link, &mut dispatcher, &mut registry).unwrap();
    assert_eq!(task.state(), TaskState::Terminated);
    assert_ne!(task.state(), TaskState::Completed);
    assert_ne!(task.state(), TaskState::TimedOut);
    // No handler fires afterward: a spurious completion has no effect.
    assert_eq!(signal_completion(&dispatcher, &mut registry, 102, 0x3FFF_2009, 41), 0);
    assert!(!registry.is_done(102, 41));
    assert!(dispatcher.handlers_for(102, Event::IoCompletion).is_empty());
    match task.poll_at(&mut registry, TimeSpan::from_secs(2)) {
        TaskPoll::Ready(Err(error)) => assert_eq!(error.status, ErrorType::Abort),
        _ => panic!("a terminated task reports an abort"),
    }
    assert_eq!(task.state(), TaskState::Terminated);
    assert_eq!(
        calls_after_open(&link),
        vec![
            "read_async 102 256",
            "install_handler 102 0x3fff2009 0 41",
            "terminate 102 41",
            "uninstall_handler 102 0x3fff2009 0 41",
        ]
    );
}

#[test]
fn terminating_twice_does_not_fail_twice() {
    let (mut link, session) = opened(Bench::new());
    let mut dispatcher = EventDispatcher::new();
    let mut registry = AsyncTaskRegistry::new();
    let mut task = start_read(&mut link, &session, &mut dispatcher);
    let mut other = start_read(&mut link, &session, &mut dispatcher);
    task.terminate(&mut link, &mut dispatcher, &mut registry).unwrap();
    let mut bench = link.into_inner();
    bench.failing.insert("terminate", bindings::VI_ERROR_INV_JOB_ID);
    let before = bench.calls.len();
    let mut link = Link::new(bench);
    task.terminate(&mut link, &mut dispatcher, &mut registry).unwrap();
    assert_eq!(link.transport().calls.len(), before);
    assert_eq!(task.state(), TaskState::Terminated);
    // A pending task does see the failure, and stays pending.
    let error = other.terminate(&mut link, &mut dispatcher, &mut registry).unwrap_err();
    assert_eq!(error.status, ErrorType::InvJobId);
    assert_eq!(other.state(), TaskState::Pending);
    assert_eq!(dispatcher.handlers_for(102, Event::IoCompletion).len(), 1);
}

#[test]
fn terminal_tasks_are_left_alone_by_terminate() {
    let (mut link, session) = opened(Bench::new());
    let mut dispatcher = EventDispatcher::new();
    let mut registry = AsyncTaskRegistry::new();
    let mut task = start_read(&mut link, &session, &mut dispatcher);
    registry.mark_done(102, 41);
    assert!(ready_ok(&task.poll_at(&mut registry, TimeSpan::default())));
    let before = link.transport().calls.len();
    task.terminate(&mut link, &mut dispatcher, &mut registry).unwrap();
    assert_eq!(task.state(), TaskState::Completed);
    assert_eq!(link.transport().calls.len(), before);
}

#[test]
fn terminating_takes_the_mark_along() {
    let (mut link, session) = opened(Bench::new());
    let mut dispatcher = EventDispatcher::new();
    let mut registry = AsyncTaskRegistry::new();
    let mut task = start_read(&mut link, &session, &mut dispatcher);
    assert!(task.watched());
    // The job completes just before it is aborted.
    signal_completion(&dispatcher, &mut registry, 102, 0x3FFF_2009, 41);
    registry.mark_done(102, 43);
    task.terminate(&mut link, &mut dispatcher, &mut registry).unwrap();
    assert!(!task.watched());
    assert!(!registry.is_done(102, 41));
    assert!(registry.is_done(102, 43));
    assert_eq!(task.state(), TaskState::Terminated);
}

#[test]
fn releasing_an_ended_task_removes_what_it_left() {
    let (mut link, session) = opened(Bench::new());
    let mut dispatcher = EventDispatcher::new();
    let mut registry = AsyncTaskRegistry::new();
    let mut task = start_read(&mut link, &session, &mut dispatcher);
    assert!(ready_timeout(&task.poll_at(&mut registry, TimeSpan::from_secs(2))));
    // The completion arrives late and is never consumed.
    signal_completion(&dispatcher, &mut registry, 102, 0x3FFF_2009, 41);
    assert!(registry.is_done(102, 41));
    task.release(&mut link, &mut dispatcher, &mut registry).unwrap();
    assert_eq!(task.state(), TaskState::TimedOut);
    assert!(!task.watched());
    assert!(!registry.is_done(102, 41));
    assert!(dispatcher.handlers_for(102, Event::IoCompletion).is_empty());
    assert_eq!(calls_after_open(&link).last().copied(), Some("uninstall_handler 102 0x3fff2009 0 41"));
    // Nothing is left to do the second time.
    let before = link.transport().calls.len();
    task.release(&mut link, &mut dispatcher, &mut registry).unwrap();
    assert_eq!(link.transport().calls.len(), before);
}

#[test]
fn releasing_a_pending_task_terminates_it() {
    let (mut link, session) = opened(Bench::new());
    let mut dispatcher = EventDispatcher::new();
    let mut registry = AsyncTaskRegistry::new();
    let mut task = start_read(&mut link, &session, &mut dispatcher);
    task.release(&mut link, &mut dispatcher, &mut registry).unwrap();
    assert_eq!(task.state(), TaskState::Terminated);
    assert_eq!(
        calls_after_open(&link)[2..],
        ["terminate 102 41", "uninstall_handler 102 0x3fff2009 0 41"]
    );
    let mut bench = link.into_inner();
    bench.failing.insert("uninstall_handler", bindings::VI_ERROR_INV_HNDLR_REF);
    let mut link = Link::new(bench);
    let mut other = start_read(&mut link, &session, &mut dispatcher);
    let error = other.release(&mut link, &mut dispatcher, &mut registry).unwrap_err();
    assert_eq!(error.status, ErrorType::InvHndlrRef);
    assert_eq!(other.state(), TaskState::Pending);
    assert!(other.watched());
}

#[test]
fn releasing_removes_the_handler_even_where_the_abort_is_refused() {
    let mut bench = Bench::new();
    bench.failing.insert("terminate", bindings::VI_ERROR_INV_JOB_ID);
    let (mut link, session) = opened(bench);
    let mut dispatcher = EventDispatcher::new();
    let mut registry = AsyncTaskRegistry::new();
    let mut task = start_read(&mut link, &session, &mut dispatcher);
    registry.mark_done(102, 41);
    let error = task.release(&mut link, &mut dispatcher, &mut registry).unwrap_err();
    assert_eq!(error.status, ErrorType::InvJobId);
    assert_eq!(error.description.as_deref(), Some("as the bench sees it"));
    assert_eq!(task.state(), TaskState::Terminated);
    assert!(!task.watched());
    assert!(dispatcher.handlers_for(102, Event::IoCompletion).is_empty());
    assert!(!registry.is_done(102, 41));
    assert_eq!(
        calls_after_open(&link)[2..],
        [
            "terminate 102 41",
            "status_desc 102 -1073807332",
            "uninstall_handler 102 0x3fff2009 0 41",
        ]
    );
    // A signal that comes afterwards marks nothing.
    signal_completion(&dispatcher, &mut registry, 102, 0x3FFF_2009, 41);
    assert!(!registry.is_done(102, 41));
    // An explicit terminate of a pending task stops at the refused abort.
    let mut other = start_read(&mut link, &session, &mut dispatcher);
    let before = link.transport().calls.len();
    assert!(other.terminate(&mut link, &mut dispatcher, &mut registry).is_err());
    assert_eq!(link.transport().calls.len(), before + 2);
    assert!(other.watched());
}

#[test]
fn releasing_where_nothing_is_accepted_leaves_the_task_pending() {
    let mut bench = Bench::new();
    bench.failing.insert("terminate", bindings::VI_ERROR_INV_JOB_ID);
    bench.failing.insert("uninstall_handler", bindings::VI_ERROR_INV_HNDLR_REF);
    let (mut link, session) = opened(bench);
    let mut dispatcher = EventDispatcher::new();
    let mut registry = AsyncTaskRegistry::new();
    let mut task = start_read(&mut link, &session, &mut dispatcher);
    let error = task.release(&mut link, &mut dispatcher, &mut registry).unwrap_err();
    assert_eq!(error.status, ErrorType::InvJobId);
    assert_eq!(task.state(), TaskState::Pending);
    assert!(task.watched());
    assert_eq!(dispatcher.handlers_for(102, Event::IoCompletion).len(), 1);
    assert_eq!(calls_after_open(&link).len(), 6);
}

#[test]
fn interrupt_data_is_read_as_a_block() {
    let mut bench = Bench::new();
    bench.texts.insert(bindings::VI_ATTR_USB_RECV_INTR_DATA, vec![9, 8, 7, 6]);
    let (mut link, session) = opened(bench);
    let data = UsbRecvIntrData::<4>::read(&session, &mut link).unwrap();
    assert_eq!(data.0, [9, 8, 7, 6]);
    let more = UsbRecvIntrData::<6>::read(&session, &mut link).unwrap();
    assert_eq!(more.0, [9, 8, 7, 6, 0, 0]);
    assert_eq!(
        session.get_bytes_attribute(&mut link, AttributeType::UsbRecvIntrData, 2).unwrap(),
        vec![9, 8]
    );
    let error = session.get_bytes_attribute(&mut link, AttributeType::RsrcName, 2).unwrap_err();
    assert_eq!(error.status, ErrorType::NsupAttr);
    assert_eq!(
        calls_after_open(&link),
        vec![
            "get_attribute_bytes 102 0xbfff41b1 4",
            "get_attribute_bytes 102 0xbfff41b1 6",
            "get_attribute_bytes 102 0xbfff41b1 2",
        ]
    );
    assert_eq!(libvisa::attribute::usb::block::<3>(&[1, 2, 3]), Some([1, 2, 3]));
    assert_eq!(libvisa::attribute::usb::block::<3>(&[1, 2]), None);
    assert_eq!(libvisa::attribute::usb::block::<0>(&[]), Some([]));
}

#[test]
fn a_block_of_another_length_is_no_value() {
    let mut bench = Bench::new();
    bench.short_blocks = true;
    let (mut link, session) = opened(bench);
    let error = UsbRecvIntrData::<4>::read(&session, &mut link).unwrap_err();
    assert_eq!(error.status, ErrorType::NsupAttrState);
    assert_eq!(error.description.as_deref(), Some("Raw value outside the domain of the attribute"));
    let mut bench = link.into_inner();
    bench.failing.insert("get_attribute_bytes", bindings::VI_ERROR_NSUP_ATTR);
    let mut link = Link::new(bench);
    let error = UsbRecvIntrData::<4>::read(&session, &mut link).unwrap_err();
    assert_eq!(error.status, ErrorType::NsupAttr);
}

#[test]
fn a_value_written_to_the_device_is_read_back() {
    let (mut link, session) = opened(Bench::new());
    let cases = [
        (AttributeType::AsrlEndOut, AttrValue::End(libvisa::attribute::AsrlEnd::Break)),
        (AttributeType::AsrlReplaceChar, AttrValue::Char('\u{e9}')),
        (AttributeType::AsrlXonChar, AttrValue::Char('\u{ff}')),
        (AttributeType::AsrlParity, AttrValue::Parity(AsrlParityType::Mark)),
    ];
    for (kind, value) in cases {
        session.set_attribute(&mut link, kind, value).unwrap();
        assert_eq!(session.get_attribute(&mut link, kind).unwrap(), value);
    }
}

#[test]
fn a_job_that_cannot_be_started_or_watched_gives_no_task() {
    let mut bench = Bench::new();
    bench.failing.insert("read_async", bindings::VI_ERROR_IN_PROGRESS);
    let (mut link, session) = opened(bench);
    let mut dispatcher = EventDispatcher::new();
    let error = session.read_async(&mut link, &mut dispatcher, 8, TimeSpan::default()).unwrap_err();
    assert_eq!(error.status, ErrorType::InProgress);
    let mut bench = link.into_inner();
    bench.failing.clear();
    bench.failing.insert("install_handler", bindings::VI_ERROR_INV_EVENT);
    let mut link = Link::new(bench);
    let error = session.write_async(&mut link, &mut dispatcher, b"", TimeSpan::default()).unwrap_err();
    assert_eq!(error.status, ErrorType::InvEvent);
    assert!(dispatcher.handlers_for(102, Event::IoCompletion).is_empty());
}
