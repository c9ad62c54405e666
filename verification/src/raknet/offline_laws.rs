//! What a server answers to those who are not connected yet, and whom it takes on.

use crate::bytes::{be, be_len, from_be, from_be_bound, from_be_of_be, pow256_values};
use crate::ordered::{
    holds, insert_laws, lex_is_total, lookup, rank, rank_bounds, rank_is, remove_laws, removed,
    sorted, Key,
};
use crate::raknet::address::{address_of, address_of_id, PeerAddress};
use crate::raknet::answer_laws::{
    address_is_written, holds_number, is_address, number_is_echoed, number_is_held,
};
use crate::raknet::budget::RakNetBudgets;
use crate::raknet::error::ControlFault;
use crate::raknet::reader::magic;
use crate::raknet::server::{
    advertisement, clamped_mtu, host_unspecified, owned_from, port_of, serves, FreezeReport,
    RouteView, RouterActionView, RouterCommand, RouterModel, ServerConfig,
};
use crate::raknet::wire::{
    i64_at, i64_wire, incompatible_protocol, open_connection_reply_1, open_connection_reply_2,
    unconnected_pong,
};
use crate::text::{decimal, signed_decimal};
use vstd::prelude::*;
use vstd::string::*;
use vstd::utf8::encode_utf8;

verus! {

/// Whether the mark of offline messages stands at a place.
pub open spec fn marked(s: Seq<u8>, at: int) -> bool {
    &&& 0 <= at
    &&& at + 16 <= s.len()
    &&& s.subrange(at, at + 16) == seq![
        0x00u8, 0xff, 0xff, 0x00, 0xfe, 0xfe, 0xfe, 0xfe, 0xfd, 0xfd, 0xfd, 0xfd, 0x12, 0x34, 0x56,
        0x78,
    ]
}

/// Whether a datagram size is the one that is asked for as far as the budgets allow: at least 576
/// bytes, and otherwise no more than a datagram may have.
pub open spec fn agreed_size(size: u16, asked: int, budgets: RakNetBudgets) -> bool {
    &&& size >= 576
    &&& size <= budgets.max_datagram_bytes || size == 576
    &&& size < asked ==> size == 0xffff || size >= budgets.max_datagram_bytes
    &&& size > asked ==> size == 576
}

proof fn size_is_agreed(budgets: RakNetBudgets, mtu: u16)
    ensures
        agreed_size(clamped_mtu(budgets, mtu), mtu as int, budgets),
{
}

/// Whether bytes let a client go on: a mark, the number of the server, no security, and a size.
pub open spec fn lets_go_on(s: Seq<u8>, guid: i64, size: int) -> bool {
    &&& s.len() == 28
    &&& s[0] == 0x06
    &&& marked(s, 1)
    &&& holds_number(s, 17, guid)
    &&& s[25] == 0
    &&& from_be(s.subrange(26, 28)) == size
}

/// Whether bytes refuse a client that speaks another version: the version that is spoken here, a
/// mark and the number of the server.
pub open spec fn refuses_version(s: Seq<u8>, version: u8, guid: i64) -> bool {
    &&& s.len() == 26
    &&& s[0] == 0x19
    &&& s[1] == version
    &&& marked(s, 2)
    &&& holds_number(s, 18, guid)
}

proof fn going_on_is_laid_out(guid: i64, size: u16)
    ensures
        lets_go_on(open_connection_reply_1(guid, size), guid, size as int),
{
    broadcast use be_len, pow256_values, from_be_of_be;

    let s = open_connection_reply_1(guid, size);
    let tail = seq![0u8] + be(size as nat, 2);
    number_is_held(seq![0x06u8] + magic(), guid, tail);
    assert(seq![0x06u8] + magic() + i64_wire(guid) + tail =~= s);
    assert(s.subrange(1, 17) =~= magic());
    assert(s.subrange(26, 28) =~= be(size as nat, 2));
}

proof fn refusal_is_laid_out(version: u8, guid: i64)
    ensures
        refuses_version(incompatible_protocol(version, guid), version, guid),
{
    broadcast use be_len, pow256_values;

    let s = incompatible_protocol(version, guid);
    let head = seq![0x19u8, version] + magic();
    number_is_held(head, guid, Seq::empty());
    assert(head + i64_wire(guid) + Seq::<u8>::empty() =~= s);
    assert(s.subrange(2, 18) =~= magic());
}

/// A client that asks to connect goes on exactly where it speaks the version of the server, which
/// is the byte behind the mark; otherwise it is told the version. The size it is offered is that of
/// its packet as far as the budgets allow. Nobody is taken on yet.
pub proof fn version_decides_who_goes_on(
    router: RouterModel,
    config: &ServerConfig,
    from: PeerAddress,
    packet: Seq<u8>,
)
    requires
        packet.len() >= 18,
        packet[0] == 0x05,
        marked(packet, 1),
    ensures
        ({
            let (after, route) = router.on_packet(config, from, packet);
            &&& after == router
            &&& route matches RouteView::Reply(reply)
            &&& packet[17] == config.raknet_version ==> exists|size: u16|
                #[trigger] agreed_size(
                    size,
                    packet.len() as int,
                    config.budgets,
                ) && lets_go_on(reply, config.server_guid, size as int)
            &&& packet[17] != config.raknet_version ==> refuses_version(
                reply,
                config.raknet_version,
                config.server_guid,
            )
        }),
{
    assert(packet.subrange(1, 17) == magic());
    let asked: u16 = if packet.len() > 0xffff {
        0xffff
    } else {
        packet.len() as u16
    };
    let size = clamped_mtu(config.budgets, asked);
    size_is_agreed(config.budgets, asked);
    assert(agreed_size(size, packet.len() as int, config.budgets));
    going_on_is_laid_out(config.server_guid, size);
    refusal_is_laid_out(config.raknet_version, config.server_guid);
}

/// Whether bytes are a pong: the time that was sent, as it was sent, the number of the server, a
/// mark, and a text with its length.
pub open spec fn is_pong(s: Seq<u8>, ping: Seq<u8>, guid: i64, text: Seq<u8>) -> bool {
    &&& s.len() == 35 + text.len()
    &&& s[0] == 0x1c
    &&& s.subrange(1, 9) == ping.subrange(1, 9)
    &&& holds_number(s, 9, guid)
    &&& marked(s, 17)
    &&& from_be(s.subrange(33, 35)) == text.len()
    &&& s.skip(35) == text
}

/// Texts, each with a semicolon behind it.
pub open spec fn with_semicolons(fields: Seq<Seq<char>>) -> Seq<char>
    decreases fields.len(),
{
    if fields.len() == 0 {
        Seq::empty()
    } else {
        with_semicolons(fields.drop_last()) + fields.last() + seq![';']
    }
}

/// What a server tells of itself: the edition, its name for players, the versions of the protocol
/// and of the game, how many players there are and can be, its number, its own name, the mode of
/// the game in words and as a number, and its port twice.
pub open spec fn told_of_server(config: &ServerConfig) -> Seq<Seq<char>> {
    seq![
        "MCPE"@,
        config.motd@,
        decimal(config.protocol_number as nat),
        config.game_version@,
        decimal(config.online_players as nat),
        decimal(config.max_players as nat),
        signed_decimal(config.server_guid as int),
        config.server_name@,
        "Survival"@,
        "1"@,
        decimal(port_of(config.bind_addr) as nat),
        decimal(port_of(config.bind_addr) as nat),
    ]
}

/// The advertisement of a server is what it tells of itself, field by field.
pub proof fn advertisement_tells_of_the_server(config: &ServerConfig)
    ensures
        advertisement(config) == with_semicolons(told_of_server(config)),
{
    reveal_strlit("MCPE;");
    reveal_strlit("MCPE");
    reveal_strlit(";");
    reveal_strlit(";Survival;1;");
    reveal_strlit("Survival");
    reveal_strlit("1");
    let f = told_of_server(config);
    reveal_with_fuel(with_semicolons, 13);
    assert(f.drop_last() =~= f.take(11));
    assert(f.take(11).drop_last() =~= f.take(10));
    assert(f.take(10).drop_last() =~= f.take(9));
    assert(f.take(9).drop_last() =~= f.take(8));
    assert(f.take(8).drop_last() =~= f.take(7));
    assert(f.take(7).drop_last() =~= f.take(6));
    assert(f.take(6).drop_last() =~= f.take(5));
    assert(f.take(5).drop_last() =~= f.take(4));
    assert(f.take(4).drop_last() =~= f.take(3));
    assert(f.take(3).drop_last() =~= f.take(2));
    assert(f.take(2).drop_last() =~= f.take(1));
    assert(f.take(1).drop_last() =~= Seq::empty());
    assert(advertisement(config) =~= with_semicolons(f));
}

/// A ping is answered by a pong with the time that was sent and what the server tells of itself,
/// unless that is too long to be counted. Nobody is taken on.
pub proof fn ping_is_answered(
    router: RouterModel,
    config: &ServerConfig,
    from: PeerAddress,
    ping: Seq<u8>,
)
    requires
        ping.len() >= 33,
        ping[0] == 0x01 || ping[0] == 0x02,
        marked(ping, 9),
        encode_utf8(with_semicolons(told_of_server(config))).len() <= 0xffff,
    ensures
        ({
            let (after, route) = router.on_packet(config, from, ping);
            &&& after == router
            &&& route matches RouteView::Reply(reply)
            &&& is_pong(
                reply,
                ping,
                config.server_guid,
                encode_utf8(with_semicolons(told_of_server(config))),
            )
        }),
{
    broadcast use be_len, pow256_values, from_be_of_be;

    advertisement_tells_of_the_server(config);
    assert(ping.subrange(9, 25) == magic());
    let text = encode_utf8(advertisement(config));
    let time = i64_at(ping, 1);
    let s = unconnected_pong(time, config.server_guid, text);
    number_is_echoed(ping, 1);
    let tail = magic() + be(text.len(), 2) + text;
    let head = seq![0x1cu8] + i64_wire(time);
    number_is_held(head, config.server_guid, tail);
    assert(head + i64_wire(config.server_guid) + tail =~= s);
    assert(s.subrange(1, 9) =~= ping.subrange(1, 9));
    assert(s.subrange(17, 33) =~= magic());
    assert(s.subrange(33, 35) =~= be(text.len(), 2));
    assert(s.skip(35) =~= text);
}

/// Whether bytes take a client on: a mark, the number of the server, the address of the client, a
/// size and no encryption.
pub open spec fn takes_on(s: Seq<u8>, guid: i64, client: PeerAddress, size: int) -> bool {
    let n: int = if client is V4 {
        7
    } else {
        29
    };
    &&& s.len() == 28 + n
    &&& s[0] == 0x08
    &&& marked(s, 1)
    &&& holds_number(s, 17, guid)
    &&& is_address(s.subrange(25, 25 + n), client)
    &&& from_be(s.subrange(25 + n, 27 + n)) == size
    &&& s[27 + n] == 0
}

proof fn taking_on_is_laid_out(guid: i64, client: PeerAddress, size: u16)
    ensures
        takes_on(open_connection_reply_2(guid, client, size), guid, client, size as int),
{
    broadcast use be_len, pow256_values, from_be_of_be;

    let s = open_connection_reply_2(guid, client, size);
    address_is_written(client);
    let n: int = if client is V4 {
        7
    } else {
        29
    };
    let tail = client.wire() + be(size as nat, 2) + seq![0u8];
    number_is_held(seq![0x08u8] + magic(), guid, tail);
    assert(seq![0x08u8] + magic() + i64_wire(guid) + tail =~= s);
    assert(s.subrange(1, 17) =~= magic());
    assert(s.subrange(25, 25 + n) =~= client.wire());
    assert(s.subrange(25 + n, 27 + n) =~= be(size as nat, 2));
}

/// The size that a client asks for when it opens a connection: it stands behind an address, which
/// is seven bytes long in version four and twenty-nine in version six.
pub open spec fn asked_size(packet: Seq<u8>) -> int {
    if packet[17] == 4 {
        from_be(packet.subrange(24, 26)) as int
    } else {
        from_be(packet.subrange(46, 48)) as int
    }
}

/// A client that opens a connection is taken on where the server does not know it and has room: the
/// router answers for it from then on. One that it knows is answered again; without room, nobody is
/// taken on and nothing is answered. The address in the packet does not count, only how long it is.
pub proof fn client_is_taken_on_where_there_is_room(
    router: RouterModel,
    config: &ServerConfig,
    from: PeerAddress,
    packet: Seq<u8>,
)
    requires
        sorted(router.peers),
        packet.len() >= 18,
        packet[0] == 0x07,
        marked(packet, 1),
        packet[17] == 4 && packet.len() >= 34 || packet[17] == 6 && packet.len() >= 56,
    ensures
        ({
            let (after, route) = router.on_packet(config, from, packet);
            let known = lookup(router.peers, from.id()) is Some;
            &&& known ==> after == router && (route matches RouteView::Reply(reply) && exists|
                size: u16,
            |
                #[trigger] agreed_size(size, asked_size(packet), config.budgets) && takes_on(
                    reply,
                    config.server_guid,
                    from,
                    size as int,
                ))
            &&& !known && router.peers.len() < config.budgets.max_peers ==> {
                &&& lookup(after.peers, from.id()) == Some(true)
                &&& after.peers.len() == router.peers.len() + 1
                &&& route matches RouteView::Open { mtu, reply }
                &&& agreed_size(mtu, asked_size(packet), config.budgets)
                &&& takes_on(reply, config.server_guid, from, mtu as int)
            }
            &&& !known && router.peers.len() >= config.budgets.max_peers ==> route is Forget
                && after.peers == router.peers
        }),
{
    broadcast use pow256_values;

    assert(packet.subrange(1, 17) == magic());
    let at: int = if packet[17] == 4 {
        24
    } else {
        46
    };
    let part = packet.subrange(at, at + 2);
    from_be_bound(part);
    let asked = from_be(part) as u16;
    assert(asked == asked_size(packet));
    let size = clamped_mtu(config.budgets, asked);
    size_is_agreed(config.budgets, asked);
    taking_on_is_laid_out(config.server_guid, from, size);
    insert_laws(router.peers, from.id(), true, from.id());
    remove_laws(router.peers, from.id(), from.id());
    assert(!holds(router.peers, from.id()) ==> removed(router.peers, from.id())
        =~= router.peers);
}

/// A packet that is no offline message goes to the peer that it comes from, if the server knows it,
/// and is ignored otherwise; an offline message without its mark, or cut short, makes the server
/// forget whom it comes from.
pub proof fn other_packets_go_to_their_peers(
    router: RouterModel,
    config: &ServerConfig,
    from: PeerAddress,
    packet: Seq<u8>,
)
    requires
        sorted(router.peers),
    ensures
        ({
            let (after, route) = router.on_packet(config, from, packet);
            let offline = packet.len() > 0 && (packet[0] == 0x01 || packet[0] == 0x02 || packet[0]
                == 0x05 || packet[0] == 0x07);
            let at: int = if packet[0] <= 0x02 {
                9
            } else {
                1
            };
            &&& !offline ==> after == router && route == if lookup(router.peers, from.id())
                is Some {
                RouteView::Deliver
            } else {
                RouteView::Ignore
            }
            &&& offline && !marked(packet, at) ==> route is Forget && lookup(
                after.peers,
                from.id(),
            ) is None
        }),
{
    remove_laws(router.peers, from.id(), from.id());
    if packet.len() > 0 && (packet[0] == 0x01 || packet[0] == 0x02) && packet.len() >= 25 {
        assert(packet.subrange(9, 25) == magic() ==> marked(packet, 9));
    }
    if packet.len() >= 17 {
        assert(packet.subrange(1, 17) == magic() ==> marked(packet, 1));
    }
}

proof fn owned_are(router: RouterModel, i: int, address: PeerAddress)
    requires
        sorted(router.peers),
        0 <= i <= router.peers.len(),
        forall|k: int|
            0 <= k < router.peers.len() ==> (#[trigger] router.peers[k]).0 == address_of(
                router.peers[k].0,
            ).id(),
    ensures
        owned_from(router.peers, i).contains(address) <==> exists|k: int|
            i <= k < router.peers.len() && (#[trigger] router.peers[k]).0 == address.id()
                && router.peers[k].1,
    decreases router.peers.len() - i,
{
    if i < router.peers.len() {
        owned_are(router, i + 1, address);
        let head = address_of(router.peers[i].0);
        let rest = owned_from(router.peers, i + 1);
        let all = owned_from(router.peers, i);
        address_of_id(address);
        address_of_id(head);
        if router.peers[i].1 {
            assert(all == seq![head] + rest);
            if rest.contains(address) {
                let j = choose|j: int| 0 <= j < rest.len() && rest[j] == address;
                assert(all[j + 1] == address);
            }
            if head == address {
                assert(all[0] == address);
                assert(router.peers[i].0 == address.id());
            }
            if all.contains(address) && head != address {
                let j = choose|j: int| 0 <= j < all.len() && all[j] == address;
                assert(rest[j - 1] == address);
            }
        }
    }
}

/// Whether every entry of a router is about the address of a peer.
pub open spec fn about_peers(router: RouterModel) -> bool {
    forall|k: int|
        0 <= k < router.peers.len() ==> (#[trigger] router.peers[k]).0 == address_of(
            router.peers[k].0,
        ).id()
}

/// Freezing, resuming and giving up concern exactly the peers that the router answers for, and not
/// those that a session answers for.
pub proof fn router_acts_for_its_own_peers(router: RouterModel, address: PeerAddress)
    requires
        sorted(router.peers),
        about_peers(router),
    ensures
        router.owned().contains(address) <==> lookup(router.peers, address.id()) == Some(true),
        !router.frozen ==> router.on_command(RouterCommand::Freeze).1
            == RouterActionView::FreezePeers(router.owned()),
        router.on_command(RouterCommand::Transfer).1 == RouterActionView::TransferPeers(
            router.owned(),
        ),
        router.frozen || router.receive_paused ==> router.on_command(RouterCommand::Resume).1
            == RouterActionView::ResumePeers(router.owned()),
        router.frozen || router.receive_paused ==> router.on_command(
            RouterCommand::ResumeReceive,
        ).1 == RouterActionView::ResumePeers(router.owned()),
{
    owned_are(router, 0, address);
    rank_bounds(router.peers, address.id());
    let place = rank(router.peers, address.id());
    if exists|k: int|
        0 <= k < router.peers.len() && (#[trigger] router.peers[k]).0 == address.id()
            && router.peers[k].1 {
        let k = choose|k: int|
            0 <= k < router.peers.len() && (#[trigger] router.peers[k]).0 == address.id()
                && router.peers[k].1;
        lex_is_total(address.id(), address.id(), address.id());
        rank_is(router.peers, address.id(), k);
    }
}

/// What completes a request: a freeze that every peer took leaves the router frozen; resuming
/// leaves it receiving; a transfer that every peer took ends the router, and one that failed does
/// not.
pub proof fn requests_are_completed(
    router: RouterModel,
    error: ControlFault,
)
    requires
        router.pending is None,
    ensures
        router.on_command(RouterCommand::PauseReceive).0.receive_paused,
        router.frozen ==> router.on_command(RouterCommand::Freeze).0 == router && router.on_command(
            RouterCommand::Freeze,
        ).1 matches RouterActionView::Answer(Err(_)),
        !router.frozen ==> ({
            let (frozen, answer) = router.on_command(RouterCommand::Freeze).0.on_frozen(
                FreezeReport { first: None, failures: 0 },
            );
            &&& frozen.frozen
            &&& frozen.peers == router.peers
            &&& answer == RouterActionView::Answer(Ok(()))
        }),
        router.on_command(RouterCommand::Transfer).0.on_transferred(None).1
            == RouterActionView::AnswerAndStop,
        router.on_command(RouterCommand::Transfer).0.on_transferred(Some(error)) == (
            router,
            RouterActionView::Answer(Err(error.spec_error())),
        ),
        router.frozen || router.receive_paused ==> ({
            let (resumed, answer) = router.on_command(RouterCommand::Resume).0.on_resumed(None);
            &&& !resumed.frozen
            &&& !resumed.receive_paused
            &&& resumed.peers == router.peers
            &&& answer == RouterActionView::Answer(Ok(()))
        }),
        router.frozen || router.receive_paused ==> ({
            let (resumed, answer) = router.on_command(RouterCommand::ResumeReceive).0.on_resumed(
                None,
            );
            &&& resumed.frozen == router.frozen
            &&& !resumed.receive_paused
            &&& answer == RouterActionView::Answer(Ok(()))
        }),
{
}

/// A socket serves a listener on every port where the listener leaves the port open, and on every
/// host where it leaves the host open; otherwise only on that port and that host.
pub proof fn socket_serves_its_listener(configured: PeerAddress, local: PeerAddress)
    ensures
        serves(configured, configured),
        serves(configured, local) && port_of(configured) != 0 ==> port_of(local) == port_of(
            configured,
        ),
        serves(configured, local) ==> match (configured, local) {
            (PeerAddress::V4 { ip: a, .. }, PeerAddress::V4 { ip: b, .. }) => a == 0 || a == b,
            (PeerAddress::V4 { ip: a, .. }, PeerAddress::V6 { .. }) => a == 0,
            (
                PeerAddress::V6 { high: h, low: l, .. },
                PeerAddress::V6 { high: i, low: m, .. },
            ) => (h == 0 && l == 0) || (h == i && l == m),
            (PeerAddress::V6 { high: h, low: l, .. }, PeerAddress::V4 { .. }) => h == 0 && l == 0,
        },
        port_of(configured) == 0 && host_unspecified(configured) ==> serves(configured, local),
{
}

} // verus!
