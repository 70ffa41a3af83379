//! One meter connection: the byte source, the key, and the engine.

use vstd::prelude::*;
use crate::engine::Engine;
use crate::link::ParseFrame;
use crate::model::State;
use crate::obis::ObisIterator;
use dlms_cosem::Dlms;

verus! {

/// `dlms_cosem::Dlms`, the key material of the decryption layer. It is
/// kept for the caller and never looked into.
#[verifier::external_type_specification]
#[verifier::external_body]
pub struct ExDlms(Dlms);

/// A meter that speaks the link layer `F` over the byte source `R`.
///
/// It holds what a caller needs to pull messages: the byte source to read
/// from, the key material to decrypt with, and the reassembly engine that
/// says which of the two is due.
#[derive(Debug)]
pub struct SmartMeter<R, F: ParseFrame> {
    reader: R,
    dlms: Dlms,
    engine: Engine<F>,
}

impl<R, F: ParseFrame> SmartMeter<R, F> {
    /// The byte source.
    pub closed spec fn source(&self) -> R {
        self.reader
    }

    /// The key material.
    pub closed spec fn key(&self) -> Dlms {
        self.dlms
    }

    /// The reassembly engine.
    pub closed spec fn reassembly(&self) -> Engine<F> {
        self.engine
    }

    /// A meter over `reader` and `dlms` whose messages are to be decoded
    /// into registers.
    pub fn obis_iter(reader: R, dlms: Dlms) -> (iter: ObisIterator<Self>)
        ensures
            iter.inner().reassembly()@ == State::fresh(),
            iter.inner().source() == reader,
            iter.inner().key() == dlms,
    {
        ObisIterator::from(Self::apdu_iter(reader, dlms))
    }

    /// A meter over `reader` and `dlms` with nothing buffered.
    pub fn apdu_iter(reader: R, dlms: Dlms) -> (meter: Self)
        ensures
            meter.reassembly()@ == State::fresh(),
            meter.source() == reader,
            meter.key() == dlms,
    {
        Self { reader, dlms, engine: Engine::new() }
    }

    /// The byte source, to read from.
    pub fn reader(&mut self) -> (reader: &mut R)
        ensures
            *reader == old(self).source(),
            final(self).source() == *final(reader),
            final(self).key() == old(self).key(),
            final(self).reassembly() == old(self).reassembly(),
    {
        &mut self.reader
    }

    /// The key material, to decrypt with.
    pub fn dlms(&self) -> (dlms: &Dlms)
        ensures
            *dlms == self.key(),
    {
        &self.dlms
    }

    /// The reassembly engine, to look at.
    pub fn engine(&self) -> (engine: &Engine<F>)
        ensures
            *engine == self.reassembly(),
    {
        &self.engine
    }

    /// The reassembly engine, to drive.
    pub fn engine_mut(&mut self) -> (engine: &mut Engine<F>)
        ensures
            *engine == old(self).reassembly(),
            final(self).reassembly() == *final(engine),
            final(self).source() == old(self).source(),
            final(self).key() == old(self).key(),
    {
        &mut self.engine
    }
}

} // verus!
