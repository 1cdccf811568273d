//! The devices that plugins bring.

use crate::registry::Registry;
use crate::text;
use vstd::prelude::*;
use vstd::string::*;

verus! {

/// Whether a device identifier starts with a prefix of two bytes that is the
/// namespace.
pub open spec fn in_namespace(device: Seq<char>, namespace: Seq<char>) -> bool {
    vstd::utf8::encode_utf8(device).take(2) == vstd::utf8::encode_utf8(namespace)
}

/// Which plugin has each namespace.
pub open spec fn owners(namespaces: Map<Seq<char>, String>) -> Map<Seq<char>, Seq<char>> {
    namespaces.map_values(|plugin: String| plugin@)
}

/// Gives `namespace` to `plugin`, and hands back the plugin that had it.
pub fn claim_namespace(
    namespaces: &mut Registry<String>,
    namespace: String,
    plugin: &str,
) -> (replaced: Option<String>)
    ensures
        owners(final(namespaces)@) == owners(old(namespaces)@).insert(namespace@, plugin@),
        match replaced {
            Some(other) => old(namespaces)@.contains_key(namespace@) && other
                == old(namespaces)@[namespace@],
            None => !old(namespaces)@.contains_key(namespace@),
        },
{
    let owner = plugin.to_owned();
    let replaced = namespaces.insert(namespace, owner);
    assert(owners(namespaces@) =~= owners(old(namespaces)@).insert(namespace@, plugin@));
    replaced
}

/// Takes one namespace from `plugin`, if it has one. Which one, where it has
/// several, is left open.
pub fn release_namespace(namespaces: &mut Registry<String>, plugin: &str) -> (released: Option<
    String,
>)
    ensures
        match released {
            Some(namespace) => {
                &&& old(namespaces)@.contains_key(namespace@)
                &&& old(namespaces)@[namespace@]@ == plugin@
                &&& final(namespaces)@ == old(namespaces)@.remove(namespace@)
            },
            None => {
                &&& final(namespaces)@ == old(namespaces)@
                &&& forall|namespace: Seq<char>| #[trigger]
                    old(namespaces)@.contains_key(namespace) ==> old(namespaces)@[namespace]@
                        != plugin@
            },
        },
{
    let keys = namespaces.keys();
    let mut i: usize = 0;
    while i < keys.len()
        invariant
            i <= keys.len(),
            namespaces@ == old(namespaces)@,
            forall|namespace: Seq<char>| #[trigger]
                namespaces@.contains_key(namespace) ==> exists|j: int|
                    0 <= j < keys@.len() && #[trigger] keys@[j]@ == namespace,
            forall|j: int|
                0 <= j < i && namespaces@.contains_key(#[trigger] keys@[j]@)
                    ==> namespaces@[keys@[j]@]@ != plugin@,
        decreases keys.len() - i,
    {
        let owned = match namespaces.get(keys[i].as_str()) {
            Some(owner) => text::same_text(owner.as_str(), plugin),
            None => false,
        };
        if owned {
            let _ = namespaces.remove(keys[i].as_str());
            return Some(keys[i].clone());
        }
        i += 1;
    }
    None
}

/// Equal bytes are equal texts.
proof fn lemma_bytes_decide(a: Seq<char>, b: Seq<char>)
    ensures
        vstd::utf8::encode_utf8(a) == vstd::utf8::encode_utf8(b) <==> a == b,
{
    vstd::utf8::encode_utf8_decode_utf8(a);
    vstd::utf8::encode_utf8_decode_utf8(b);
}

/// Those of `devices` that are in `namespace`, in their order. An identifier has
/// a character boundary after its first two bytes.
pub fn devices_in_namespace(devices: &Vec<String>, namespace: &str) -> (result: Vec<String>)
    requires
        forall|i: int|
            0 <= i < devices@.len() ==> vstd::utf8::is_char_boundary(
                vstd::utf8::encode_utf8(#[trigger] devices@[i]@),
                2,
            ),
    ensures
        text::text_views(result@) == text::text_views(devices@).filter(
            |device: Seq<char>| in_namespace(device, namespace@),
        ),
{
    let ghost all = text::text_views(devices@);
    let ghost wanted = |device: Seq<char>| in_namespace(device, namespace@);
    let mut result: Vec<String> = Vec::new();
    let mut i: usize = 0;
    proof {
        reveal(Seq::filter);
        assert(text::text_views(result@) =~= all.take(0).filter(wanted));
    }
    while i < devices.len()
        invariant
            i <= devices.len(),
            all == text::text_views(devices@),
            wanted == (|device: Seq<char>| in_namespace(device, namespace@)),
            forall|j: int|
                0 <= j < devices@.len() ==> vstd::utf8::is_char_boundary(
                    vstd::utf8::encode_utf8(#[trigger] devices@[j]@),
                    2,
                ),
            text::text_views(result@) == all.take(i as int).filter(wanted),
        decreases devices.len() - i,
    {
        let (prefix, _) = devices[i].as_str().split_at(2);
        proof {
            reveal(Seq::filter);
            lemma_bytes_decide(prefix@, namespace@);
            assert(all.take(i + 1).drop_last() =~= all.take(i as int));
            assert(all.take(i + 1).last() == devices@[i as int]@);
            vstd::utf8::encode_utf8_valid_utf8(devices@[i as int]@);
            assert(vstd::utf8::encode_utf8(devices@[i as int]@).take(2)
                =~= vstd::utf8::encode_utf8(devices@[i as int]@).subrange(0, 2));
        }
        let ghost before = result@;
        if text::same_text(prefix, namespace) {
            result.push(devices[i].clone());
            assert(text::text_views(result@) =~= text::text_views(before).push(devices@[i as int]@));
        }
        i += 1;
    }
    assert(all.take(all.len() as int) =~= all);
    result
}

/// A plugin that had no namespace and claims one has that one to release, and
/// releasing it leaves the others as they were.
pub proof fn law_claimed_namespace_is_the_one_to_release(
    owned: Map<Seq<char>, Seq<char>>,
    namespace: Seq<char>,
    plugin: Seq<char>,
)
    requires
        forall|other: Seq<char>| #[trigger] owned.contains_key(other) ==> owned[other] != plugin,
    ensures
        forall|other: Seq<char>| #[trigger]
            owned.insert(namespace, plugin).contains_key(other) && owned.insert(
                namespace,
                plugin,
            )[other] == plugin ==> other == namespace,
        owned.insert(namespace, plugin).remove(namespace) == owned.remove(namespace),
{
    assert(owned.insert(namespace, plugin).remove(namespace) =~= owned.remove(namespace));
}

/// A namespace that is not two bytes long has no devices.
pub proof fn law_namespaces_are_two_bytes(device: Seq<char>, namespace: Seq<char>)
    requires
        vstd::utf8::encode_utf8(device).len() >= 2,
        vstd::utf8::encode_utf8(namespace).len() != 2,
    ensures
        !in_namespace(device, namespace),
{
}

/// A device is in at most one namespace.
pub proof fn law_device_is_in_one_namespace(
    device: Seq<char>,
    one: Seq<char>,
    other: Seq<char>,
)
    requires
        in_namespace(device, one),
        in_namespace(device, other),
    ensures
        one == other,
{
    lemma_bytes_decide(one, other);
}

/// The owners of namespaces show, for each, its plugin.
pub proof fn law_owners_are_shown(namespaces: Map<Seq<char>, String>, namespace: Seq<char>)
    ensures
        owners(namespaces).contains_key(namespace) <==> namespaces.contains_key(namespace),
        namespaces.contains_key(namespace) ==> owners(namespaces)[namespace]
            == namespaces[namespace]@,
{
}

/// A device is in a namespace if and only if the namespace is two bytes and they
/// are the first two of the device.
pub proof fn law_first_two_bytes_are_the_namespace(device: Seq<char>, namespace: Seq<char>)
    requires
        vstd::utf8::encode_utf8(device).len() >= 2,
    ensures
        in_namespace(device, namespace) <==> {
            &&& vstd::utf8::encode_utf8(namespace).len() == 2
            &&& vstd::utf8::encode_utf8(namespace)[0] == vstd::utf8::encode_utf8(device)[0]
            &&& vstd::utf8::encode_utf8(namespace)[1] == vstd::utf8::encode_utf8(device)[1]
        },
{
    let bytes = vstd::utf8::encode_utf8(device);
    let prefix = vstd::utf8::encode_utf8(namespace);
    if prefix.len() == 2 && prefix[0] == bytes[0] && prefix[1] == bytes[1] {
        assert(bytes.take(2) =~= prefix);
    }
    if in_namespace(device, namespace) {
        assert(bytes.take(2)[0] == bytes[0] && bytes.take(2)[1] == bytes[1]);
    }
}

proof fn lemma_encode_add(a: Seq<char>, b: Seq<char>)
    ensures
        vstd::utf8::encode_utf8(a + b) == vstd::utf8::encode_utf8(a) + vstd::utf8::encode_utf8(b),
    decreases a.len(),
{
    if a.len() == 0 {
        assert(a + b =~= b);
        assert(vstd::utf8::encode_utf8(a) + vstd::utf8::encode_utf8(b) =~= vstd::utf8::encode_utf8(
            b,
        ));
    } else {
        lemma_encode_add(a.drop_first(), b);
        assert((a + b).drop_first() =~= a.drop_first() + b);
        assert((a + b)[0] == a[0]);
        assert(vstd::utf8::encode_utf8(a + b) =~= vstd::utf8::encode_utf8(a)
            + vstd::utf8::encode_utf8(b));
    }
}

/// Whatever follows a namespace of two bytes, the device is in it.
pub proof fn law_devices_begin_with_their_namespace(namespace: Seq<char>, rest: Seq<char>)
    requires
        vstd::utf8::encode_utf8(namespace).len() == 2,
    ensures
        in_namespace(namespace + rest, namespace),
{
    lemma_encode_add(namespace, rest);
    assert(vstd::utf8::encode_utf8(namespace + rest).take(2) =~= vstd::utf8::encode_utf8(
        namespace,
    ));
}

} // verus!
