//! The control-surface protocol: how a host discovers and drives the DSP's
//! parameters and metadata, independently of the audio path.
//!
//! The DSP core depends only on these capability traits, never on a concrete
//! host type. Each trait carries a ghost log of what has been declared
//! through it, so that a declarer's contract can pin exactly which calls it
//! makes and in which order; `MetaLog` and `UiLog` are verified
//! implementations that record the declarations as plain values.

use vstd::prelude::*;
use vstd::string::StringExecFns;

verus! {

/// An opaque integer handle identifying a controllable or observable
/// parameter.
#[derive(Clone, Copy)]
pub struct ParamIndex(pub i32);

/// Capability to receive (key, value) metadata pairs describing the DSP;
/// purely informational. The ghost `log` holds every pair declared so far,
/// oldest first.
pub trait Meta {
    spec fn log(&self) -> Seq<(Seq<char>, Seq<char>)>;

    fn declare(&mut self, key: &str, value: &str)
        ensures
            final(self).log() == old(self).log().push((key@, value@)),
    ;
}

/// One recorded layout call, as a ghost value: which kind of group was
/// opened (with its label), or that a group was closed.
pub enum UiEvent {
    OpenTabBox(Seq<char>),
    OpenHorizontalBox(Seq<char>),
    OpenVerticalBox(Seq<char>),
    CloseBox,
}

/// Capability to receive the DSP's widget layout: nested groups, active
/// widgets bound to a `ParamIndex`, passive meters, and per-widget metadata.
/// The ghost `events` log holds the group calls made so far, oldest first,
/// so a layout declarer's contract can pin the exact group structure; the
/// widget declarations carry host values of type `T` and are left
/// uninterpreted here.
pub trait UI<T> {
    spec fn events(&self) -> Seq<UiEvent>;

    fn open_tab_box(&mut self, label: &str)
        ensures
            final(self).events() == old(self).events().push(UiEvent::OpenTabBox(label@)),
    ;

    fn open_horizontal_box(&mut self, label: &str)
        ensures
            final(self).events() == old(self).events().push(UiEvent::OpenHorizontalBox(label@)),
    ;

    fn open_vertical_box(&mut self, label: &str)
        ensures
            final(self).events() == old(self).events().push(UiEvent::OpenVerticalBox(label@)),
    ;

    fn close_box(&mut self)
        ensures
            final(self).events() == old(self).events().push(UiEvent::CloseBox),
    ;

    fn add_button(&mut self, label: &str, param: ParamIndex);

    fn add_check_button(&mut self, label: &str, param: ParamIndex);

    fn add_vertical_slider(
        &mut self,
        label: &str,
        param: ParamIndex,
        init: T,
        min: T,
        max: T,
        step: T,
    );

    fn add_horizontal_slider(
        &mut self,
        label: &str,
        param: ParamIndex,
        init: T,
        min: T,
        max: T,
        step: T,
    );

    fn add_num_entry(&mut self, label: &str, param: ParamIndex, init: T, min: T, max: T, step: T);

    fn add_horizontal_bargraph(&mut self, label: &str, param: ParamIndex, min: T, max: T);

    fn add_vertical_bargraph(&mut self, label: &str, param: ParamIndex, min: T, max: T);

    fn declare(&mut self, param: Option<ParamIndex>, key: &str, value: &str);
}

/// A metadata sink that keeps every declared pair, in order.
pub struct MetaLog {
    pub pairs: Vec<(String, String)>,
}

impl MetaLog {
    pub fn new() -> (r: MetaLog)
        ensures
            r.log() == Seq::<(Seq<char>, Seq<char>)>::empty(),
    {
        MetaLog { pairs: Vec::new() }
    }
}

impl Meta for MetaLog {
    open spec fn log(&self) -> Seq<(Seq<char>, Seq<char>)> {
        self.pairs@.map_values(|p: (String, String)| (p.0@, p.1@))
    }

    fn declare(&mut self, key: &str, value: &str) {
        self.pairs.push((String::from_str(key), String::from_str(value)));
        proof {
            assert(self.log() =~= old(self).log().push((key@, value@)));
        }
    }
}

/// One recorded layout call, as a plain value.
#[derive(Clone, PartialEq, Eq, Debug)]
pub enum UiEntry {
    OpenTabBox(String),
    OpenHorizontalBox(String),
    OpenVerticalBox(String),
    CloseBox,
}

/// What a recorded layout call says, as a ghost event.
pub open spec fn view_entry(e: UiEntry) -> UiEvent {
    match e {
        UiEntry::OpenTabBox(label) => UiEvent::OpenTabBox(label@),
        UiEntry::OpenHorizontalBox(label) => UiEvent::OpenHorizontalBox(label@),
        UiEntry::OpenVerticalBox(label) => UiEvent::OpenVerticalBox(label@),
        UiEntry::CloseBox => UiEvent::CloseBox,
    }
}

/// A layout sink that keeps the group structure, in order. Widget
/// declarations are accepted and dropped: this zero-parameter family
/// declares none, and the `events` log tracks groups only.
pub struct UiLog {
    pub entries: Vec<UiEntry>,
}

impl UiLog {
    pub fn new() -> (r: UiLog)
        ensures
            r.events() == Seq::<UiEvent>::empty(),
    {
        UiLog { entries: Vec::new() }
    }
}

impl UI<u32> for UiLog {
    open spec fn events(&self) -> Seq<UiEvent> {
        self.entries@.map_values(|e: UiEntry| view_entry(e))
    }

    fn open_tab_box(&mut self, label: &str) {
        self.entries.push(UiEntry::OpenTabBox(String::from_str(label)));
        proof {
            assert(self.events() =~= old(self).events().push(UiEvent::OpenTabBox(label@)));
        }
    }

    fn open_horizontal_box(&mut self, label: &str) {
        self.entries.push(UiEntry::OpenHorizontalBox(String::from_str(label)));
        proof {
            assert(self.events() =~= old(self).events().push(
                UiEvent::OpenHorizontalBox(label@),
            ));
        }
    }

    fn open_vertical_box(&mut self, label: &str) {
        self.entries.push(UiEntry::OpenVerticalBox(String::from_str(label)));
        proof {
            assert(self.events() =~= old(self).events().push(
                UiEvent::OpenVerticalBox(label@),
            ));
        }
    }

    fn close_box(&mut self) {
        self.entries.push(UiEntry::CloseBox);
        proof {
            assert(self.events() =~= old(self).events().push(UiEvent::CloseBox));
        }
    }

    fn add_button(&mut self, label: &str, param: ParamIndex) {
    }

    fn add_check_button(&mut self, label: &str, param: ParamIndex) {
    }

    fn add_vertical_slider(
        &mut self,
        label: &str,
        param: ParamIndex,
        init: u32,
        min: u32,
        max: u32,
        step: u32,
    ) {
    }

    fn add_horizontal_slider(
        &mut self,
        label: &str,
        param: ParamIndex,
        init: u32,
        min: u32,
        max: u32,
        step: u32,
    ) {
    }

    fn add_num_entry(
        &mut self,
        label: &str,
        param: ParamIndex,
        init: u32,
        min: u32,
        max: u32,
        step: u32,
    ) {
    }

    fn add_horizontal_bargraph(&mut self, label: &str, param: ParamIndex, min: u32, max: u32) {
    }

    fn add_vertical_bargraph(&mut self, label: &str, param: ParamIndex, min: u32, max: u32) {
    }

    fn declare(&mut self, param: Option<ParamIndex>, key: &str, value: &str) {
    }
}

} // verus!
