//! What the CUTLASS bridge reports, and how failures read.
use crate::error::{Message, Value, Values};
use crate::text::chars_of;
use vstd::prelude::*;

verus! {

/// Length of the buffer that the bridge writes its reports into.
pub const REPORT_BYTES: usize = 512;

/// What the bridge was built with.
#[derive(Clone, Copy, Debug)]
pub struct BridgeBuild {
    /// Grouped products over experts.
    pub moe_grouped: bool,
}

/// Whether grouped products were built in.
pub fn moe_grouped_supported(build: &BridgeBuild) -> (yes: bool)
    ensures
        yes == build.moe_grouped,
{
    build.moe_grouped
}

/// The text that bytes stand for in UTF-8, with a replacement character for what is not
/// UTF-8.
pub uninterp spec fn lossy_text(bytes: Seq<u8>) -> Seq<char>;

/// `String::from_utf8_lossy`: the text of the bytes. Bytes of ASCII are the characters of
/// the same number.
#[verifier::external_body]
fn lossy(bytes: &[u8]) -> (text: String)
    ensures
        text@ == lossy_text(bytes@),
        (forall|i: int| 0 <= i < bytes@.len() ==> bytes@[i] < 128) ==> text@ =~= Seq::new(
            bytes@.len(),
            |i: int| bytes@[i] as char,
        ),
{
    String::from_utf8_lossy(bytes).into_owned()
}

/// A buffer that the bridge writes a report into, which ends before the first zero.
#[derive(Debug)]
pub struct ErrorBuffer {
    pub bytes: [u8; 512],
}

/// The bytes before the first zero.
pub open spec fn before_zero(bytes: Seq<u8>) -> Seq<u8>
    decreases bytes.len(),
{
    if bytes.len() == 0 || bytes[0] == 0 {
        Seq::empty()
    } else {
        seq![bytes[0]] + before_zero(bytes.drop_first())
    }
}

proof fn lemma_before_zero(bytes: Seq<u8>, end: int)
    requires
        0 <= end <= bytes.len(),
        forall|i: int| 0 <= i < end ==> bytes[i] != 0,
        end == bytes.len() || bytes[end] == 0,
    ensures
        before_zero(bytes) == bytes.take(end),
    decreases bytes.len(),
{
    if end == 0 {
        assert(bytes.take(0) =~= Seq::empty());
    } else {
        let rest = bytes.drop_first();
        assert forall|i: int| 0 <= i < end - 1 implies rest[i] != 0 by {
            assert(bytes[i + 1] != 0);
        }
        lemma_before_zero(rest, end - 1);
        assert(bytes.take(end) =~= seq![bytes[0]] + rest.take(end - 1));
    }
}

impl ErrorBuffer {
    /// What the bridge wrote.
    pub open spec fn spec_message(&self) -> Seq<char> {
        lossy_text(before_zero(self.bytes@))
    }

    /// A buffer without a report.
    pub fn new() -> (buffer: Self)
        ensures
            before_zero(buffer.bytes@) == Seq::<u8>::empty(),
            forall|i: int| 0 <= i < REPORT_BYTES ==> buffer.bytes@[i] == 0,
    {
        ErrorBuffer { bytes: [0; 512] }
    }

    /// Number of bytes that the bridge may write.
    pub fn len(&self) -> (n: usize)
        ensures
            n == REPORT_BYTES,
    {
        REPORT_BYTES
    }

    /// What the bridge wrote. A report in ASCII reads as it was written.
    pub fn message(&self) -> (text: String)
        ensures
            text@ == self.spec_message(),
            ({
                let report = before_zero(self.bytes@);
                (forall|i: int| 0 <= i < report.len() ==> report[i] < 128) ==> text@ =~= Seq::new(
                    report.len(),
                    |i: int| report[i] as char,
                )
            }),
    {
        let mut end: usize = 0;
        while end < 512 && self.bytes[end] != 0
            invariant
                end <= 512,
                forall|i: int| 0 <= i < end ==> self.bytes@[i] != 0,
            decreases 512 - end,
        {
            end += 1;
        }
        proof {
            lemma_before_zero(self.bytes@, end as int);
        }
        let mut report: Vec<u8> = Vec::new();
        let mut i: usize = 0;
        while i < end
            invariant
                i <= end <= 512,
                report@ == self.bytes@.take(i as int),
            decreases end - i,
        {
            report.push(self.bytes[i]);
            i += 1;
            assert(report@ =~= self.bytes@.take(i as int));
        }
        lossy(report.as_slice())
    }
}

/// A failure with its code, and with the bridge's report where there is one.
pub open spec fn failure(
    code: i32,
    report: Seq<char>,
    bare: &'static str,
    reported: &'static str,
    message: Message,
) -> bool {
    if report.len() == 0 {
        message == (Message { text: bare, values: Values::One(Value::Signed(code)) })
    } else {
        &&& message.text == reported
        &&& message.values matches Values::Two(number, text)
        &&& number == Value::Signed(code)
        &&& text matches Value::Name(name)
        &&& name@ == report
    }
}

fn checked(
    code: i32,
    error: &ErrorBuffer,
    bare: &'static str,
    reported: &'static str,
) -> (outcome: Result<(), Message>)
    ensures
        outcome is Ok <==> code == 0,
        outcome matches Err(message) ==> failure(code, error.spec_message(), bare, reported, message),
{
    if code == 0 {
        return Ok(());
    }
    let report = error.message();
    if chars_of(report.as_str()).len() == 0 {
        Err(Message { text: bare, values: Values::One(Value::Signed(code)) })
    } else {
        Err(
            Message {
                text: reported,
                values: Values::Two(Value::Signed(code), Value::Name(report)),
            },
        )
    }
}

/// What a call of the bridge comes to: code zero is success.
pub fn status(code: i32, error: &ErrorBuffer) -> (outcome: Result<(), Message>)
    ensures
        outcome is Ok <==> code == 0,
        outcome matches Err(message) ==> failure(
            code,
            error.spec_message(),
            "CUTLASS bridge failed with code {}",
            "CUTLASS bridge failed with code {}: {}",
            message,
        ),
{
    checked(
        code,
        error,
        "CUTLASS bridge failed with code {}",
        "CUTLASS bridge failed with code {}: {}",
    )
}

/// What the workspace query of a grouped product comes to.
pub fn moe_grouped_workspace_size(code: i32, error: &ErrorBuffer) -> (outcome: Result<(), Message>)
    ensures
        outcome is Ok <==> code == 0,
        outcome matches Err(message) ==> failure(
            code,
            error.spec_message(),
            "CUTLASS MoE NVFP4 workspace_size failed with code {}",
            "CUTLASS MoE NVFP4 workspace_size failed with code {}: {}",
            message,
        ),
{
    checked(
        code,
        error,
        "CUTLASS MoE NVFP4 workspace_size failed with code {}",
        "CUTLASS MoE NVFP4 workspace_size failed with code {}: {}",
    )
}

/// What a grouped product comes to.
pub fn moe_grouped_run(code: i32, error: &ErrorBuffer) -> (outcome: Result<(), Message>)
    ensures
        outcome is Ok <==> code == 0,
        outcome matches Err(message) ==> failure(
            code,
            error.spec_message(),
            "CUTLASS MoE NVFP4 grouped GEMM run failed with code {}",
            "CUTLASS MoE NVFP4 grouped GEMM run failed with code {}: {}",
            message,
        ),
{
    checked(
        code,
        error,
        "CUTLASS MoE NVFP4 grouped GEMM run failed with code {}",
        "CUTLASS MoE NVFP4 grouped GEMM run failed with code {}: {}",
    )
}

/// What a call without a report comes to.
pub open spec fn bare_outcome(code: i32, text: &'static str) -> Result<(), Message> {
    if code == 0 {
        Ok(())
    } else {
        Err(Message { text, values: Values::One(Value::Signed(code)) })
    }
}

fn bare(code: i32, text: &'static str) -> (outcome: Result<(), Message>)
    ensures
        outcome == bare_outcome(code, text),
{
    if code == 0 {
        Ok(())
    } else {
        Err(Message { text, values: Values::One(Value::Signed(code)) })
    }
}

/// What the query of the blob sizes comes to.
pub fn moe_grouped_blob_sizes(code: i32) -> (outcome: Result<(), Message>)
    ensures
        outcome == bare_outcome(
            code,
            "CUTLASS MoE NVFP4 grouped blob sizes query failed with code {}",
        ),
{
    bare(code, "CUTLASS MoE NVFP4 grouped blob sizes query failed with code {}")
}

/// What the quantization of grouped activations comes to.
pub fn moe_grouped_quantize_input(code: i32) -> (outcome: Result<(), Message>)
    ensures
        outcome == bare_outcome(
            code,
            "CUTLASS MoE NVFP4 grouped input quantize failed with code {}",
        ),
{
    bare(code, "CUTLASS MoE NVFP4 grouped input quantize failed with code {}")
}

/// What bringing weight scales into the layout of a grouped product comes to.
pub fn moe_grouped_swizzle_weight_scales(code: i32) -> (outcome: Result<(), Message>)
    ensures
        outcome == bare_outcome(
            code,
            "CUTLASS MoE NVFP4 grouped weight-scale swizzle failed with code {}",
        ),
{
    bare(code, "CUTLASS MoE NVFP4 grouped weight-scale swizzle failed with code {}")
}

/// What a call on a problem size comes to.
pub open spec fn sized_outcome(
    m: i32,
    n: i32,
    k: i32,
    code: i32,
    text: &'static str,
) -> Result<(), Message> {
    if code == 0 {
        Ok(())
    } else {
        Err(
            Message {
                text,
                values: Values::Four(
                    Value::Signed(m),
                    Value::Signed(n),
                    Value::Signed(k),
                    Value::Signed(code),
                ),
            },
        )
    }
}

fn sized(m: i32, n: i32, k: i32, code: i32, text: &'static str) -> (outcome: Result<(), Message>)
    ensures
        outcome == sized_outcome(m, n, k, code, text),
{
    if code == 0 {
        Ok(())
    } else {
        Err(
            Message {
                text,
                values: Values::Four(
                    Value::Signed(m),
                    Value::Signed(n),
                    Value::Signed(k),
                    Value::Signed(code),
                ),
            },
        )
    }
}

/// What computing the blobs of one group comes to.
pub fn moe_grouped_compute_strides(
    m: i32,
    n: i32,
    k: i32,
    code: i32,
) -> (outcome: Result<(), Message>)
    ensures
        outcome == sized_outcome(
            m,
            n,
            k,
            code,
            "CUTLASS MoE NVFP4 compute_strides failed (m={}, n={}, k={}) with code {}",
        ),
{
    sized(
        m,
        n,
        k,
        code,
        "CUTLASS MoE NVFP4 compute_strides failed (m={}, n={}, k={}) with code {}",
    )
}

/// What the query of the scale bytes of a problem comes to.
pub fn moe_grouped_sfa_sfb_bytes(
    m: i32,
    n: i32,
    k: i32,
    code: i32,
) -> (outcome: Result<(), Message>)
    ensures
        outcome == sized_outcome(
            m,
            n,
            k,
            code,
            "CUTLASS MoE NVFP4 sfa_sfb_bytes failed (m={}, n={}, k={}) with code {}",
        ),
{
    sized(m, n, k, code, "CUTLASS MoE NVFP4 sfa_sfb_bytes failed (m={}, n={}, k={}) with code {}")
}

} // verus!
