//! Calls of the chains' pallets, and what is asked of their storage.
use crate::account::AccountId32;
use crate::value::{as_u128, unnamed_items, Composite, Primitive, Value, ValueDef, Variant};
use vstd::prelude::*;

verus! {

/// An entry of a chain's storage, with the keys of what is asked for.
#[derive(Debug)]
pub struct StorageQuery {
    pub pallet: &'static str,
    pub entry: &'static str,
    pub keys: Vec<Value<()>>,
}

/// A call of a pallet, with its arguments.
#[derive(Debug)]
pub struct DynamicCall {
    pub pallet: &'static str,
    pub name: &'static str,
    pub args: Vec<Value<()>>,
}

/// Whether a value is the list of the given bytes.
pub open spec fn is_bytes<T>(v: Value<T>, bytes: Seq<u8>) -> bool {
    match unnamed_items(v) {
        Some(items) => items.len() == bytes.len() && forall|i: int|
            0 <= i < bytes.len() ==> as_u128(#[trigger] items[i]) == Some(bytes[i] as u128),
        None => false,
    }
}

/// The values of a variant of the given name.
pub open spec fn variant_args<T>(v: Value<T>, name: Seq<char>) -> Option<Seq<Value<T>>> {
    match v.value {
        ValueDef::Variant(w) => match w.values {
            Composite::Unnamed(items) => if w.name@ == name {
                Some(items@)
            } else {
                None
            },
            Composite::Named(_) => None,
        },
        _ => None,
    }
}

/// Whether a value is a variant of the given name with exactly one value.
pub open spec fn wraps_one<T>(v: Value<T>, name: Seq<char>) -> bool {
    variant_args(v, name) is Some && variant_args(v, name)->0.len() == 1
}

/// The arguments of the call that a value is, where it calls the pallet's function.
pub open spec fn call_args<T>(v: Value<T>, pallet: Seq<char>, name: Seq<char>) -> Option<
    Seq<Value<T>>,
> {
    if wraps_one(v, pallet) {
        variant_args(variant_args(v, pallet)->0[0], name)
    } else {
        None
    }
}

/// Whether a value names an account by its identity.
pub open spec fn names_account<T>(v: Value<T>, account: Seq<u8>) -> bool {
    wraps_one(v, "Id"@) && is_bytes(variant_args(v, "Id"@)->0[0], account)
}

/// Whether a value asks for the proxy type that may not transfer funds.
pub open spec fn forces_non_transfer<T>(v: Value<T>) -> bool {
    wraps_one(v, "Some"@) && variant_args(variant_args(v, "Some"@)->0[0], "NonTransfer"@) == Some(
        Seq::<Value<T>>::empty(),
    )
}

/// Whether a call is made for an account through a proxy that may not transfer
/// funds.
pub open spec fn is_proxied(call: DynamicCall, account: Seq<u8>) -> bool {
    call.pallet@ == "Proxy"@ && call.name@ == "proxy"@ && call.args@.len() == 3 && names_account(
        call.args@[0],
        account,
    ) && forces_non_transfer(call.args@[1])
}

/// The arguments of the pallet function that a call makes for an account through
/// a proxy that may not transfer funds.
pub open spec fn proxied_args(
    call: DynamicCall,
    account: Seq<u8>,
    pallet: Seq<char>,
    name: Seq<char>,
) -> Option<Seq<Value<()>>> {
    if is_proxied(call, account) {
        call_args(call.args@[2], pallet, name)
    } else {
        None
    }
}

/// An unsigned number.
pub fn number_value(n: u128) -> (r: Value<()>)
    ensures
        as_u128(r) == Some(n),
{
    Value { value: ValueDef::Primitive(Primitive::U128(n)), context: () }
}

/// A list of bytes.
pub fn bytes_value(bytes: &[u8]) -> (r: Value<()>)
    ensures
        is_bytes(r, bytes@),
{
    let mut items: Vec<Value<()>> = Vec::new();
    let mut i: usize = 0;
    while i < bytes.len()
        invariant
            i <= bytes@.len(),
            items@.len() == i,
            forall|j: int| 0 <= j < i ==> as_u128(#[trigger] items@[j]) == Some(bytes@[j] as u128),
        decreases bytes@.len() - i,
    {
        items.push(number_value(bytes[i] as u128));
        i = i + 1;
    }
    Value { value: ValueDef::Composite(Composite::Unnamed(items)), context: () }
}

/// A variant with unnamed values.
pub fn variant_value(name: &str, args: Vec<Value<()>>) -> (r: Value<()>)
    ensures
        variant_args(r, name@) == Some(args@),
{
    Value {
        value: ValueDef::Variant(
            Variant { name: name.to_string(), values: Composite::Unnamed(args) },
        ),
        context: (),
    }
}

/// A variant with one unnamed value.
pub fn wrapping_value(name: &str, arg: Value<()>) -> (r: Value<()>)
    ensures
        wraps_one(r, name@),
        variant_args(r, name@)->0[0] == arg,
{
    let mut args: Vec<Value<()>> = Vec::new();
    args.push(arg);
    variant_value(name, args)
}

impl DynamicCall {
    /// The call as an argument of another call.
    pub fn into_value(self) -> (r: Value<()>)
        ensures
            call_args(r, self.pallet@, self.name@) == Some(self.args@),
    {
        wrapping_value(self.pallet, variant_value(self.name, self.args))
    }

    /// The call, made for an account through a proxy that may not transfer funds.
    pub fn via_proxy(self, account: &AccountId32) -> (r: DynamicCall)
        ensures
            proxied_args(r, account@, self.pallet@, self.name@) == Some(self.args@),
    {
        let mut args: Vec<Value<()>> = Vec::new();
        args.push(wrapping_value("Id", bytes_value(&account.0)));
        args.push(wrapping_value("Some", variant_value("NonTransfer", Vec::new())));
        args.push(self.into_value());
        DynamicCall { pallet: "Proxy", name: "proxy", args }
    }
}

/// A value is the list of some bytes exactly where it is an unnamed composite of as
/// many unsigned numbers, each of which is the byte at its place.
pub proof fn law_byte_lists<T>(v: Value<T>, bytes: Seq<u8>)
    ensures
        is_bytes(v, bytes) <==> (v.value matches ValueDef::Composite(Composite::Unnamed(items))
            && items@.len() == bytes.len() && forall|i: int|
            0 <= i < bytes.len() ==> (#[trigger] items@[i]).value == ValueDef::<T>::Primitive(
                Primitive::U128(bytes[i] as u128),
            )),
{
    if is_bytes(v, bytes) {
        let items = v.value->Composite_0->Unnamed_0;
        assert forall|i: int| 0 <= i < bytes.len() implies (#[trigger] items@[i]).value
            == ValueDef::<T>::Primitive(Primitive::U128(bytes[i] as u128)) by {
            assert(as_u128(items@[i]) == Some(bytes[i] as u128));
        }
    }
}

/// A call that is made for an account through a proxy calls `Proxy::proxy` with the
/// account's identity, the proxy type `NonTransfer`, and the call of the pallet's
/// function with the arguments, and nothing else.
pub proof fn law_proxied_calls(
    call: DynamicCall,
    account: Seq<u8>,
    pallet: Seq<char>,
    name: Seq<char>,
    args: Seq<Value<()>>,
)
    requires
        proxied_args(call, account, pallet, name) == Some(args),
    ensures
        call.pallet@ == "Proxy"@,
        call.name@ == "proxy"@,
        call.args@.len() == 3,
        call.args@[0].value matches ValueDef::Variant(id) && id.name@ == "Id"@ && (id.values matches
            Composite::Unnamed(items) && items@.len() == 1 && is_bytes(items@[0], account)),
        call.args@[1].value matches ValueDef::Variant(some) && some.name@ == "Some"@ && (
        some.values matches Composite::Unnamed(items) && items@.len() == 1 && (
        items@[0].value matches ValueDef::Variant(kind) && kind.name@ == "NonTransfer"@ && (
        kind.values matches Composite::Unnamed(none) && none@.len() == 0))),
        call.args@[2].value matches ValueDef::Variant(outer) && outer.name@ == pallet && (
        outer.values matches Composite::Unnamed(items) && items@.len() == 1 && (
        items@[0].value matches ValueDef::Variant(inner) && inner.name@ == name && (
        inner.values matches Composite::Unnamed(list) && list@ == args))),
{
}

} // verus!
