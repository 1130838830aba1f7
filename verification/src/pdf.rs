//! Printing to PDF: whoever comes first, the backend or the watchdog, resolves
//! the request, and nobody resolves it twice.

use vstd::prelude::*;
use vstd::string::*;

verus! {

/// How long a request waits for the backend, in milliseconds (60 s).
pub const PRINT_TO_PDF_TIMEOUT_MILLIS: u64 = 60_000;

/// One request. It is pending until its callback has been taken.
pub struct PdfSlot {
    pub path: Option<String>,
    pub timeout_millis: u64,
    pub pending: bool,
}

/// How a request is resolved: with a result, or by writing the bytes to a file
/// first.
pub enum PdfDelivery {
    Resolve(Result<Vec<u8>, String>),
    WriteThenResolve { path: String, bytes: Vec<u8> },
}

/// What a request is told if its backend cannot print.
pub open spec fn unsupported_message() -> Seq<char> {
    "print_to_pdf is not supported by this backend"@
}

/// What a request is told if the backend does not answer in time.
pub open spec fn timeout_message(seconds: Seq<char>) -> Seq<char> {
    "print_to_pdf timed out after "@ + seconds + "s waiting for the backend"@
}

/// What a request is told if its file cannot be written.
pub open spec fn write_failure_message(path: Seq<char>, reason: Seq<char>) -> Seq<char> {
    "failed to write PDF to "@ + path + ": "@ + reason
}

impl PdfSlot {
    /// The request once its callback has been taken.
    pub open spec fn settled(self) -> PdfSlot {
        PdfSlot { pending: false, ..self }
    }

    pub fn new(path: Option<&str>, timeout_millis: u64) -> (r: PdfSlot)
        ensures
            r.pending,
            r.timeout_millis == timeout_millis,
            match path {
                Some(p) => r.path matches Some(q) && q@ == p@,
                None => r.path is None,
            },
    {
        let path = match path {
            Some(p) => Some(p.to_string()),
            None => None,
        };
        PdfSlot { path, timeout_millis, pending: true }
    }

    /// The backend is done, with the bytes or an error. If the request has been
    /// resolved already, this comes to nothing.
    pub fn complete(&mut self, bytes: Vec<u8>, error: Option<String>) -> (r: Option<PdfDelivery>)
        ensures
            *final(self) == old(self).settled(),
            r is Some <==> old(self).pending,
            r matches Some(delivery) ==> match (error, old(self).path) {
                (Some(message), _) => delivery == PdfDelivery::Resolve(Err(message)),
                (None, None) => delivery == PdfDelivery::Resolve(Ok(bytes)),
                (None, Some(p)) => delivery == (PdfDelivery::WriteThenResolve { path: p, bytes }),
            },
    {
        if !self.pending {
            return None;
        }
        self.pending = false;
        match error {
            Some(message) => Some(PdfDelivery::Resolve(Err(message))),
            None => match &self.path {
                Some(p) => Some(PdfDelivery::WriteThenResolve { path: p.clone(), bytes }),
                None => Some(PdfDelivery::Resolve(Ok(bytes))),
            },
        }
    }

    /// Whether the watchdog goes on waiting: the request is pending and its time
    /// is not up.
    pub fn watchdog_waits(&self, waited_millis: u64) -> (r: bool)
        ensures
            r == (self.pending && waited_millis < self.timeout_millis),
    {
        self.pending && waited_millis < self.timeout_millis
    }

    /// The watchdog stops waiting. If the request is still pending, it is
    /// resolved as timed out.
    pub fn time_out(&mut self, seconds: &str) -> (r: Option<Result<Vec<u8>, String>>)
        ensures
            *final(self) == old(self).settled(),
            r is Some <==> old(self).pending,
            r matches Some(result) ==> (result matches Err(message) && message@
                == timeout_message(seconds@)),
    {
        if !self.pending {
            return None;
        }
        self.pending = false;
        let mut message = "print_to_pdf timed out after ".to_string();
        message.append(seconds);
        message.append("s waiting for the backend");
        Some(Err(message))
    }
}

/// The result once the file was written, or could not be.
pub fn after_write(path: &str, bytes: Vec<u8>, failure: Option<&str>) -> (r: Result<
    Vec<u8>,
    String,
>)
    ensures
        match failure {
            None => r == Ok::<Vec<u8>, String>(bytes),
            Some(reason) => r matches Err(message) && message@ == write_failure_message(
                path@,
                reason@,
            ),
        },
{
    match failure {
        None => Ok(bytes),
        Some(reason) => {
            let mut message = "failed to write PDF to ".to_string();
            message.append(path);
            message.append(": ");
            message.append(reason);
            Err(message)
        },
    }
}

/// How many of `n` events, completions or timeouts in any order, resolve a
/// request.
pub open spec fn deliveries(slot: PdfSlot, n: nat) -> nat
    decreases n,
{
    if n == 0 {
        0
    } else {
        (if slot.pending {
            1nat
        } else {
            0
        }) + deliveries(slot.settled(), (n - 1) as nat)
    }
}

/// A pending request is resolved exactly once, whatever comes first and however
/// much comes after; one that has been resolved is never resolved again.
pub proof fn resolved_exactly_once(slot: PdfSlot, n: nat)
    ensures
        deliveries(slot, n) == (if slot.pending && n > 0 {
            1nat
        } else {
            0
        }),
    decreases n,
{
    if n > 0 {
        resolved_exactly_once(slot.settled(), (n - 1) as nat);
    }
}

} // verus!
