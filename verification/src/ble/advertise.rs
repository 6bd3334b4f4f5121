//! Connectable advertising: the payload that carries the device name and
//! the commands that configure and switch advertising.

use vstd::prelude::*;
use crate::ble::sequence::{Command, CommandView};

verus! {

/// Opcode: LE Set Random Address.
pub const HCI_OP_LE_SET_RANDOM_ADDR: u16 = 0x2005;

/// Opcode: LE Set Advertising Parameters.
pub const HCI_OP_LE_SET_ADV_PARAM: u16 = 0x2006;

/// Opcode: LE Set Advertising Data.
pub const HCI_OP_LE_SET_ADV_DATA: u16 = 0x2008;

/// Opcode: LE Set Advertising Enable.
pub const HCI_OP_LE_SET_ADV_ENABLE: u16 = 0x200A;

/// AD type: flags.
pub const AD_TYPE_FLAGS: u8 = 0x01;

/// AD type: shortened local name.
pub const AD_TYPE_SHORT_NAME: u8 = 0x08;

/// AD type: complete local name.
pub const AD_TYPE_COMPLETE_NAME: u8 = 0x09;

/// Flags value: LE General Discoverable, BR/EDR not supported.
pub const AD_FLAGS_GENERAL_LE_ONLY: u8 = 0x06;

/// Size of the advertising-data field of the controller, in bytes.
pub const ADV_DATA_LEN: usize = 31;

/// Most name bytes that are advertised when advertising is started on its own.
pub const ADVERTISED_NAME_MAX: usize = 25;

/// Most name bytes that are advertised while the GATT server runs.
pub const SERVED_NAME_MAX: usize = 20;

/// The static random address that the device advertises under: C0:DE:CA:FE:BE:EF.
pub open spec fn random_address() -> Seq<u8> {
    seq![0xC0u8, 0xDE, 0xCA, 0xFE, 0xBE, 0xEF]
}

/// Advertising parameters: 100 ms minimum and maximum interval,
/// connectable undirected advertising, random own address, public peer
/// address of zeros, all three advertising channels, no filter.
pub open spec fn advertising_parameters() -> Seq<u8> {
    seq![
        0xA0u8, 0x00, 0xA0, 0x00, 0x00, 0x01, 0x00, 0x00, 0x00, 0x00, 0x00, 0x00, 0x00, 0x07,
        0x00,
    ]
}

/// The part of a name that is advertised: its first `limit` bytes.
pub open spec fn advertised_name(name: Seq<u8>, limit: int) -> Seq<u8> {
    if name.len() <= limit {
        name
    } else {
        name.take(limit)
    }
}

/// The advertising payload: a flags structure, then a complete-local-name
/// structure that holds the advertised part of the name. Each structure
/// is its length, its type and its value; the length counts type and value.
pub open spec fn advertising_data(name: Seq<u8>, limit: int) -> Seq<u8> {
    let shown = advertised_name(name, limit);
    seq![0x02u8, AD_TYPE_FLAGS, AD_FLAGS_GENERAL_LE_ONLY] + seq![
        (shown.len() + 1) as u8,
        AD_TYPE_COMPLETE_NAME,
    ] + shown
}

/// `count` zero bytes.
pub open spec fn zeros(count: int) -> Seq<u8> {
    Seq::new(count as nat, |i: int| 0u8)
}

/// Parameters of the command that sets the advertising data: the
/// payload's length, the payload, and zeros up to the size of the field.
pub open spec fn advertising_data_params(name: Seq<u8>, limit: int) -> Seq<u8> {
    let data = advertising_data(name, limit);
    seq![data.len() as u8] + data + zeros(ADV_DATA_LEN - data.len())
}

/// The commands that bring advertising up, in order: random address,
/// parameters, data, enable.
pub open spec fn advertising_commands(name: Seq<u8>, limit: int) -> Seq<CommandView> {
    seq![
        CommandView { opcode: HCI_OP_LE_SET_RANDOM_ADDR, params: random_address() },
        CommandView { opcode: HCI_OP_LE_SET_ADV_PARAM, params: advertising_parameters() },
        CommandView { opcode: HCI_OP_LE_SET_ADV_DATA, params: advertising_data_params(name, limit) },
        CommandView { opcode: HCI_OP_LE_SET_ADV_ENABLE, params: seq![0x01u8] },
    ]
}

/// The command that switches advertising off.
pub open spec fn advertising_off() -> CommandView {
    CommandView { opcode: HCI_OP_LE_SET_ADV_ENABLE, params: seq![0x00u8] }
}

/// Builds the parameters of the command that sets the advertising data.
pub fn build_advertising_data(name: &[u8], limit: usize) -> (params: Vec<u8>)
    requires
        limit <= 26,
    ensures
        params@ == advertising_data_params(name@, limit as int),
        params@.len() == ADV_DATA_LEN + 1,
{
    let shown: usize = if name.len() <= limit {
        name.len()
    } else {
        limit
    };
    let total: usize = 5 + shown;
    let mut params: Vec<u8> = Vec::new();
    params.push(total as u8);
    params.push(0x02);
    params.push(AD_TYPE_FLAGS);
    params.push(AD_FLAGS_GENERAL_LE_ONLY);
    params.push((shown + 1) as u8);
    params.push(AD_TYPE_COMPLETE_NAME);
    let mut i: usize = 0;
    while i < shown
        invariant
            i <= shown <= name@.len(),
            shown <= limit <= 26,
            params@ =~= seq![
                (5 + shown) as u8,
                0x02u8,
                AD_TYPE_FLAGS,
                AD_FLAGS_GENERAL_LE_ONLY,
                (shown + 1) as u8,
                AD_TYPE_COMPLETE_NAME,
            ] + name@.take(i as int),
        decreases shown - i,
    {
        params.push(name[i]);
        i += 1;
    }
    let ghost data = advertising_data(name@, limit as int);
    assert(advertised_name(name@, limit as int) =~= name@.take(shown as int));
    assert(params@ =~= seq![data.len() as u8] + data);
    while params.len() < ADV_DATA_LEN + 1
        invariant
            data.len() == 5 + shown,
            shown <= 26,
            1 + data.len() <= params@.len() <= ADV_DATA_LEN + 1,
            params@ =~= seq![data.len() as u8] + data + zeros(params@.len() - 1 - data.len()),
        decreases ADV_DATA_LEN + 1 - params@.len(),
    {
        params.push(0);
    }
    params
}

/// Builds the commands that bring advertising up under `name`, of which
/// at most `limit` bytes are advertised.
pub fn build_advertising_commands(name: &[u8], limit: usize) -> (commands: Vec<Command>)
    requires
        limit <= 26,
    ensures
        commands@.map_values(|command: Command| command@) == advertising_commands(
            name@,
            limit as int,
        ),
{
    let address: Vec<u8> = vec![0xC0u8, 0xDE, 0xCA, 0xFE, 0xBE, 0xEF];
    let parameters: Vec<u8> = vec![
        0xA0u8, 0x00, 0xA0, 0x00, 0x00, 0x01, 0x00, 0x00, 0x00, 0x00, 0x00, 0x00, 0x00, 0x07,
        0x00,
    ];
    let data = build_advertising_data(name, limit);
    let enable: Vec<u8> = vec![0x01u8];
    assert(address@ =~= random_address());
    assert(parameters@ =~= advertising_parameters());
    assert(enable@ =~= seq![0x01u8]);
    let mut commands: Vec<Command> = Vec::new();
    commands.push(Command { opcode: HCI_OP_LE_SET_RANDOM_ADDR, params: address });
    commands.push(Command { opcode: HCI_OP_LE_SET_ADV_PARAM, params: parameters });
    commands.push(Command { opcode: HCI_OP_LE_SET_ADV_DATA, params: data });
    commands.push(Command { opcode: HCI_OP_LE_SET_ADV_ENABLE, params: enable });
    assert(commands@.map_values(|command: Command| command@) =~= advertising_commands(
        name@,
        limit as int,
    ));
    commands
}


/// The commands that bring advertising up are four, and the parameters
/// of each fit the length field of a command.
pub proof fn lemma_advertising_commands_fit(name: Seq<u8>, limit: int)
    requires
        0 <= limit <= 26,
    ensures
        advertising_commands(name, limit).len() == 4,
        forall|i: int|
            0 <= i < 4 ==> (#[trigger] advertising_commands(name, limit)[i]).params.len() <= 255,
        advertising_data(name, limit).len() <= ADV_DATA_LEN,
        advertising_data_params(name, limit).len() == ADV_DATA_LEN + 1,
{
}

} // verus!
