//! The controller registry: the externally visible records, the
//! hardware-id filter, and the lookup and record-building logic over
//! a snapshot of raw device-node data.
//!
//! The operating-system layer outside the library walks the device
//! tree and hands the library, for each enumerated node, the raw
//! outcome of every platform call: the property byte buffers, the
//! wide instance-id buffer, and the status query's return code and
//! flag field. Everything from there on — filtering, decoding,
//! status derivation, lookup by instance id — is verified library
//! logic. The library resolves a record out of a node in the fixed
//! order name, manufacturer, instance id, status; a node whose
//! resolution fails is dropped from a listing rather than aborting
//! it.

use vstd::prelude::*;
use vstd::string::StringExecFns;

use crate::status::GameControllerStatus;
use crate::status::derive_disableable;
use crate::status::derive_status;
use crate::status::spec_disableable;
use crate::status::spec_status;
use crate::wide::decode_multi_sz_bytes;
use crate::wide::decode_sz_bytes;
use crate::wide::decode_wide_sz;
use crate::wide::spec_decode_multi_sz;
use crate::wide::spec_decode_sz;
use crate::wide::spec_decode_wide_sz;

verus! {

/// The error domain of the registry operations.
#[derive(Debug, Clone, Copy, PartialEq, Eq, Structural)]
pub enum Error {
    /// No enumerated game controller carries the requested instance id.
    NotFound,
    /// A device-set or property call failed; holds the native result code.
    Win32(i32),
    /// A configuration-manager call failed; holds the native return code.
    ConfigRet(u32),
    /// A property buffer held ill-formed UTF-16 text.
    Decode,
}

/// Return code of a successful configuration-manager call.
pub const CR_SUCCESS: u32 = 0;

/// Return code of a status query against a node that is gone from
/// the tree; treated as a node with no status flags.
pub const CR_NO_SUCH_DEVNODE: u32 = 13;

/// The HRESULT carried by the "insufficient buffer" error
/// (0x8007007A), the expected — and welcome — outcome of the size
/// phase of a property read.
pub const INSUFFICIENT_BUFFER_HRESULT: i32 = -2147024774;

/// One enumerated device node, as the raw material for the registry:
/// the outcome of every platform call made against the node.
pub struct DevNodeProps {
    /// Numeric device-instance handle, the key of the
    /// configuration-manager state-change calls.
    pub devinst: u32,
    /// Outcome of reading the hardware-id multi-string property.
    pub hardware_ids: Result<Vec<u8>, Error>,
    /// Outcome of reading the device-description string property.
    pub description: Result<Vec<u8>, Error>,
    /// Outcome of reading the manufacturer string property.
    pub manufacturer: Result<Vec<u8>, Error>,
    /// Outcome of reading the textual instance id, in wide code units.
    pub instance_id: Result<Vec<u16>, Error>,
    /// Return code of the status query.
    pub status_ret: u32,
    /// Status flag field delivered by the status query.
    pub status_flags: u32,
}

/// A game-controller device node with resolved identity and state.
#[derive(Debug, Clone)]
pub struct GameController {
    pub manufacturer: String,
    pub name: String,
    pub instance_id: String,
    pub status: GameControllerStatus,
    pub disableable: bool,
}

/// The mathematical image of a `GameController`.
pub ghost struct GameControllerView {
    pub manufacturer: Seq<char>,
    pub name: Seq<char>,
    pub instance_id: Seq<char>,
    pub status: GameControllerStatus,
    pub disableable: bool,
}

impl View for GameController {
    type V = GameControllerView;

    open spec fn view(&self) -> GameControllerView {
        GameControllerView {
            manufacturer: self.manufacturer@,
            name: self.name@,
            instance_id: self.instance_id@,
            status: self.status,
            disableable: self.disableable,
        }
    }
}

impl DeepView for GameController {
    type V = GameControllerView;

    open spec fn deep_view(&self) -> GameControllerView {
        self.view()
    }
}

/// The hardware id that marks a node as a member of the
/// game-controller subsystem.
pub open spec fn game_controller_marker() -> Seq<char> {
    "HID_DEVICE_SYSTEM_GAME"@
}

/// Whether a decoded hardware-id list holds the game-controller
/// marker.
pub open spec fn spec_is_game_controller(ids: Seq<Seq<char>>) -> bool {
    exists|k: int| 0 <= k < ids.len() && ids[k] == game_controller_marker()
}

/// Whether a hardware-id list marks a node as a game controller.
pub fn is_game_controller(hwids: Vec<String>) -> (r: bool)
    ensures
        r == spec_is_game_controller(hwids.deep_view()),
{
    let marker: String = String::from_str("HID_DEVICE_SYSTEM_GAME");
    let n: usize = hwids.len();
    let mut i: usize = 0;
    while i < n
        invariant
            n == hwids@.len(),
            i <= n,
            marker@ == game_controller_marker(),
            forall|k: int| 0 <= k < i ==> hwids@[k]@ != game_controller_marker(),
        decreases n - i,
    {
        if hwids[i] == marker {
            proof {
                assert(hwids.deep_view()[i as int] == hwids@[i as int]@);
            }
            return true;
        }
        i = i + 1;
    }
    proof {
        assert(forall|k: int| 0 <= k < hwids@.len() ==> hwids.deep_view()[k] == hwids@[k]@);
    }
    false
}

/// Whether a raw node passes the game-controller hardware-id filter:
/// its hardware-id property was read and decoded, and the decoded
/// list holds the marker. A failed read or decode means "does not
/// match", never an error.
pub open spec fn spec_passes_filter(node: DevNodeProps) -> bool {
    match node.hardware_ids {
        Err(_) => false,
        Ok(buf) => match spec_decode_multi_sz(buf@) {
            None => false,
            Some(ids) => spec_is_game_controller(ids),
        },
    }
}

/// Apply the game-controller hardware-id filter to a raw node.
pub fn passes_filter(node: &DevNodeProps) -> (r: bool)
    ensures
        r == spec_passes_filter(*node),
{
    match &node.hardware_ids {
        Err(_) => false,
        Ok(buf) => match decode_multi_sz_bytes(buf) {
            None => false,
            Some(ids) => is_game_controller(ids),
        },
    }
}

/// The flag field that a status-query outcome denotes: "no such
/// node" counts as a node with no flags, any other failure is
/// surfaced verbatim.
pub open spec fn spec_query_flags(ret: u32, flags: u32) -> Result<u32, Error> {
    if ret == CR_SUCCESS {
        Ok(flags)
    } else if ret == CR_NO_SUCH_DEVNODE {
        Ok(0)
    } else {
        Err(Error::ConfigRet(ret))
    }
}

/// Interpret the outcome of a device-node status query.
pub fn query_devnode_flags(ret: u32, flags: u32) -> (r: Result<u32, Error>)
    ensures
        r == spec_query_flags(ret, flags),
{
    if ret == CR_SUCCESS {
        Ok(flags)
    } else if ret == CR_NO_SUCH_DEVNODE {
        Ok(0)
    } else {
        Err(Error::ConfigRet(ret))
    }
}

/// Classify the outcome of a property size query. The "insufficient
/// buffer" error denotes success of that phase; any other error
/// means the property is absent on the node and is surfaced.
pub fn check_insufficient_buffer(result: Result<(), i32>) -> (r: Result<(), Error>)
    ensures
        r == spec_check_insufficient_buffer(result),
{
    match result {
        Ok(()) => Ok(()),
        Err(code) => if code == INSUFFICIENT_BUFFER_HRESULT {
            Ok(())
        } else {
            Err(Error::Win32(code))
        },
    }
}

/// What a size-query outcome is classified as.
pub open spec fn spec_check_insufficient_buffer(result: Result<(), i32>) -> Result<(), Error> {
    match result {
        Ok(_) => Ok(()),
        Err(code) => if code == INSUFFICIENT_BUFFER_HRESULT {
            Ok(())
        } else {
            Err(Error::Win32(code))
        },
    }
}

/// The record that a raw node resolves to, or the error on which its
/// resolution fails: the name first, then manufacturer, instance id,
/// and the status query; a decode failure surfaces as `Decode`.
pub open spec fn spec_controller(node: DevNodeProps) -> Result<GameControllerView, Error> {
    match node.description {
        Err(e) => Err(e),
        Ok(name_buf) => match spec_decode_sz(name_buf@) {
            None => Err(Error::Decode),
            Some(name) => match node.manufacturer {
                Err(e) => Err(e),
                Ok(mfg_buf) => match spec_decode_sz(mfg_buf@) {
                    None => Err(Error::Decode),
                    Some(manufacturer) => match node.instance_id {
                        Err(e) => Err(e),
                        Ok(id_units) => match spec_decode_wide_sz(id_units@) {
                            None => Err(Error::Decode),
                            Some(instance_id) => match spec_query_flags(
                                node.status_ret,
                                node.status_flags,
                            ) {
                                Err(e) => Err(e),
                                Ok(flags) => Ok(
                                    GameControllerView {
                                        manufacturer,
                                        name,
                                        instance_id,
                                        status: spec_status(flags),
                                        disableable: spec_disableable(flags),
                                    },
                                ),
                            },
                        },
                    },
                },
            },
        },
    }
}

impl GameController {
    /// Try to build a `GameController` record out of the raw
    /// material of one device node.
    pub fn try_from_devinfo(node: &DevNodeProps) -> (r: Result<GameController, Error>)
        ensures
            match r {
                Ok(c) => spec_controller(*node) == Ok::<GameControllerView, Error>(c@),
                Err(e) => spec_controller(*node) == Err::<GameControllerView, Error>(e),
            },
    {
        let name_buf = match &node.description {
            Ok(b) => b,
            Err(e) => {
                return Err(*e);
            },
        };
        let name = match decode_sz_bytes(name_buf) {
            Some(s) => s,
            None => {
                return Err(Error::Decode);
            },
        };
        let mfg_buf = match &node.manufacturer {
            Ok(b) => b,
            Err(e) => {
                return Err(*e);
            },
        };
        let manufacturer = match decode_sz_bytes(mfg_buf) {
            Some(s) => s,
            None => {
                return Err(Error::Decode);
            },
        };
        let id_units = match &node.instance_id {
            Ok(u) => u,
            Err(e) => {
                return Err(*e);
            },
        };
        let instance_id = match decode_wide_sz(id_units) {
            Some(s) => s,
            None => {
                return Err(Error::Decode);
            },
        };
        let flags = match query_devnode_flags(node.status_ret, node.status_flags) {
            Ok(f) => f,
            Err(e) => {
                return Err(e);
            },
        };
        Ok(
            GameController {
                manufacturer,
                name,
                instance_id,
                status: derive_status(flags),
                disableable: derive_disableable(flags),
            },
        )
    }
}

/// The records of the filter-passing nodes of an enumeration, in
/// enumeration order; a node whose resolution fails contributes
/// nothing.
pub open spec fn spec_controllers(nodes: Seq<DevNodeProps>) -> Seq<GameControllerView>
    decreases nodes.len(),
{
    if nodes.len() == 0 {
        Seq::empty()
    } else {
        let init = spec_controllers(nodes.drop_last());
        if spec_passes_filter(nodes.last()) {
            match spec_controller(nodes.last()) {
                Ok(v) => init.push(v),
                Err(_) => init,
            }
        } else {
            init
        }
    }
}

/// The list operation: resolve every enumerated node that passes the
/// game-controller filter into a record. A node whose resolution
/// fails is dropped rather than aborting the listing, and an empty
/// enumeration yields an empty list, never an error.
pub fn game_controllers(nodes: &Vec<DevNodeProps>) -> (r: Vec<GameController>)
    ensures
        r.deep_view() == spec_controllers(nodes@),
{
    let n: usize = nodes.len();
    let mut out: Vec<GameController> = Vec::new();
    let mut i: usize = 0;
    proof {
        assert(nodes@.take(0) =~= Seq::<DevNodeProps>::empty());
        assert(out.deep_view() =~= Seq::<GameControllerView>::empty());
    }
    while i < n
        invariant
            n == nodes@.len(),
            i <= n,
            out.deep_view() == spec_controllers(nodes@.take(i as int)),
        decreases n - i,
    {
        proof {
            assert(nodes@.take(i + 1 as int).drop_last() =~= nodes@.take(i as int));
            assert(nodes@.take(i + 1 as int).last() == nodes@[i as int]);
        }
        let ghost prev = out.deep_view();
        if passes_filter(&nodes[i]) {
            match GameController::try_from_devinfo(&nodes[i]) {
                Ok(c) => {
                    out.push(c);
                    proof {
                        assert(out.deep_view() =~= prev.push(c@));
                    }
                },
                Err(_) => {},
            }
        }
        i = i + 1;
    }
    proof {
        assert(nodes@.take(n as int) =~= nodes@);
    }
    out
}

/// Whether a raw node is the target of an id-keyed operation: it
/// passes the game-controller filter and its instance id resolves to
/// exactly the requested id.
pub open spec fn spec_node_matches(node: DevNodeProps, id: Seq<char>) -> bool {
    spec_passes_filter(node) && match node.instance_id {
        Err(_) => false,
        Ok(units) => spec_decode_wide_sz(units@) == Some(id),
    }
}

/// Whether a raw node is the target of an id-keyed operation.
pub fn node_matches(node: &DevNodeProps, id: &String) -> (r: bool)
    ensures
        r == spec_node_matches(*node, id@),
{
    if !passes_filter(node) {
        return false;
    }
    match &node.instance_id {
        Err(_) => false,
        Ok(units) => match decode_wide_sz(units) {
            None => false,
            Some(s) => s == *id,
        },
    }
}

/// The device-instance handle of the first enumerated node that
/// matches the requested instance id, if any.
pub open spec fn spec_find(nodes: Seq<DevNodeProps>, id: Seq<char>) -> Option<u32>
    decreases nodes.len(),
{
    if nodes.len() == 0 {
        None
    } else if spec_node_matches(nodes[0], id) {
        Some(nodes[0].devinst)
    } else {
        spec_find(nodes.drop_first(), id)
    }
}

/// Resolve the device-instance handle of the first enumerated game
/// controller whose instance id equals `id`. When no enumerated
/// controller matches, the outcome is `NotFound` — never a platform
/// error.
pub fn find_devinst(nodes: &Vec<DevNodeProps>, id: &String) -> (r: Result<u32, Error>)
    ensures
        match spec_find(nodes@, id@) {
            Some(devinst) => r == Ok::<u32, Error>(devinst),
            None => r == Err::<u32, Error>(Error::NotFound),
        },
{
    let n: usize = nodes.len();
    let mut i: usize = 0;
    proof {
        assert(nodes@.skip(0) =~= nodes@);
    }
    while i < n
        invariant
            n == nodes@.len(),
            i <= n,
            spec_find(nodes@, id@) == spec_find(nodes@.skip(i as int), id@),
        decreases n - i,
    {
        proof {
            assert(nodes@.skip(i as int)[0] == nodes@[i as int]);
            assert(nodes@.skip(i as int).drop_first() =~= nodes@.skip(i + 1 as int));
        }
        if node_matches(&nodes[i], id) {
            return Ok(nodes[i].devinst);
        }
        i = i + 1;
    }
    proof {
        assert(nodes@.skip(n as int) =~= Seq::<DevNodeProps>::empty());
    }
    Err(Error::NotFound)
}

/// The outcome of a state-change request, given the return code of
/// the configuration-manager call that carried it out.
pub open spec fn spec_confirm(ret: u32) -> Result<(), Error> {
    if ret == CR_SUCCESS {
        Ok(())
    } else {
        Err(Error::ConfigRet(ret))
    }
}

/// Interpret the return code of an enable or disable request: any
/// non-success code is surfaced verbatim.
pub fn confirm_config_result(ret: u32) -> (r: Result<(), Error>)
    ensures
        r == spec_confirm(ret),
{
    if ret == CR_SUCCESS {
        Ok(())
    } else {
        Err(Error::ConfigRet(ret))
    }
}

/// Law: an empty enumeration yields an empty list.
pub proof fn lemma_empty_enumeration(nodes: Seq<DevNodeProps>)
    requires
        nodes.len() == 0,
    ensures
        spec_controllers(nodes) == Seq::<GameControllerView>::empty(),
{
}

/// Law: an instance id that no enumerated node matches resolves to
/// nothing, so an id-keyed operation on it yields `NotFound`, never
/// a platform error.
pub proof fn lemma_absent_id_not_found(nodes: Seq<DevNodeProps>, id: Seq<char>)
    requires
        forall|i: int| 0 <= i < nodes.len() ==> !spec_node_matches(nodes[i], id),
    ensures
        spec_find(nodes, id) is None,
    decreases nodes.len(),
{
    if nodes.len() > 0 {
        assert(forall|i: int|
            0 <= i < nodes.drop_first().len() ==> nodes.drop_first()[i] == nodes[i + 1]);
        lemma_absent_id_not_found(nodes.drop_first(), id);
    }
}

} // verus!
