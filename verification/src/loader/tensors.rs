//! What a checkpoint says of its tensors.
use crate::error::{invalid_plan, AegisError, Value, Values};
use crate::text::is_concatenation;
use vstd::prelude::*;

verus! {

/// Element type of a tensor.
#[derive(Clone, Copy, Debug, PartialEq, Eq, Structural)]
pub enum TensorDType {
    BF16,
    F32,
    F8E4M3,
    U8,
    /// Any other type.
    Unknown,
}

impl TensorDType {
    /// The name of the type.
    pub open spec fn label(self) -> &'static str {
        match self {
            TensorDType::BF16 => "BF16",
            TensorDType::F32 => "F32",
            TensorDType::F8E4M3 => "F8E4M3",
            TensorDType::U8 => "U8",
            TensorDType::Unknown => "Unknown",
        }
    }

    /// The name of the type.
    pub fn show(self) -> (name: &'static str)
        ensures
            name == self.label(),
    {
        match self {
            TensorDType::BF16 => "BF16",
            TensorDType::F32 => "F32",
            TensorDType::F8E4M3 => "F8E4M3",
            TensorDType::U8 => "U8",
            TensorDType::Unknown => "Unknown",
        }
    }
}

/// A tensor of a checkpoint: what it is and where its bytes are.
#[derive(Debug)]
pub struct TensorInfo {
    pub name: String,
    pub dtype: TensorDType,
    pub shape: Vec<usize>,
    pub num_elements: usize,
    pub data_len_bytes: usize,
    pub shard_path: String,
    pub file_offset: u64,
}

/// The tensors of a checkpoint.
#[derive(Debug)]
pub struct ModelArtifact {
    pub tensors: Vec<TensorInfo>,
}

/// The place of the first tensor of that name.
pub open spec fn place_of(tensors: Seq<TensorInfo>, name: Seq<char>) -> Option<int>
    decreases tensors.len(),
{
    if tensors.len() == 0 {
        None
    } else if tensors[0].name@ == name {
        Some(0)
    } else {
        match place_of(tensors.drop_first(), name) {
            Some(i) => Some(i + 1),
            None => None,
        }
    }
}

/// A place that was found is one, and the tensor there has the name.
pub proof fn place_is_within(tensors: Seq<TensorInfo>, name: Seq<char>)
    ensures
        place_of(tensors, name) matches Some(i) ==> 0 <= i < tensors.len() && tensors[i].name@
            == name,
    decreases tensors.len(),
{
    if tensors.len() > 0 && tensors[0].name@ != name {
        place_is_within(tensors.drop_first(), name);
    }
}

proof fn lemma_place_of(tensors: Seq<TensorInfo>, name: Seq<char>, n: int)
    requires
        0 <= n <= tensors.len(),
        forall|i: int| 0 <= i < n ==> (#[trigger] tensors[i]).name@ != name,
        n < tensors.len() ==> tensors[n].name@ == name,
    ensures
        place_of(tensors, name) == if n < tensors.len() {
            Some(n)
        } else {
            None
        },
    decreases tensors.len(),
{
    if n > 0 {
        let rest = tensors.drop_first();
        assert(tensors[0].name@ != name);
        assert forall|i: int| 0 <= i < n - 1 implies (#[trigger] rest[i]).name@ != name by {
            assert(rest[i] == tensors[i + 1]);
        }
        lemma_place_of(rest, name, n - 1);
    }
}

impl ModelArtifact {
    /// The tensor named `prefix` followed by `suffix`, if there is one.
    pub fn find(&self, prefix: &str, suffix: &str) -> (tensor: Option<&TensorInfo>)
        ensures
            match place_of(self.tensors@, prefix@ + suffix@) {
                Some(i) => 0 <= i < self.tensors@.len() && tensor == Some(&self.tensors@[i]),
                None => tensor is None,
            },
    {
        let mut i: usize = 0;
        while i < self.tensors.len()
            invariant
                i <= self.tensors@.len(),
                forall|k: int|
                    0 <= k < i ==> (#[trigger] self.tensors@[k]).name@ != prefix@ + suffix@,
            decreases self.tensors@.len() - i,
        {
            if is_concatenation(self.tensors[i].name.as_str(), prefix, suffix) {
                proof {
                    lemma_place_of(self.tensors@, prefix@ + suffix@, i as int);
                }
                return Some(&self.tensors[i]);
            }
            i += 1;
        }
        proof {
            lemma_place_of(self.tensors@, prefix@ + suffix@, i as int);
        }
        None
    }

    /// The tensor of that name, or the error that it is missing.
    pub open spec fn spec_require(&self, prefix: &String, suffix: Seq<char>, missing: &'static str) -> Result<
        TensorInfo,
        AegisError,
    > {
        match place_of(self.tensors@, prefix@ + suffix) {
            Some(i) => Ok(self.tensors@[i]),
            None => Err(AegisError::invalid_with(missing, Values::One(Value::Name(*prefix)))),
        }
    }

    /// The weights of a linear layer.
    pub open spec fn spec_weight(&self, prefix: &String) -> Result<TensorInfo, AegisError> {
        self.spec_require(prefix, ".weight"@, "missing `{}.weight`")
    }

    /// The block scales of a linear layer.
    pub open spec fn spec_weight_scale(&self, prefix: &String) -> Result<TensorInfo, AegisError> {
        self.spec_require(prefix, ".weight_scale"@, "missing `{}.weight_scale`")
    }

    /// The weights of a linear layer.
    pub fn weight(&self, prefix: &String) -> (tensor: Result<&TensorInfo, AegisError>)
        ensures
            match tensor {
                Ok(tensor) => self.spec_weight(prefix) == Ok::<_, AegisError>(*tensor),
                Err(error) => self.spec_weight(prefix) == Err::<TensorInfo, _>(error),
            },
    {
        match self.find(prefix.as_str(), ".weight") {
            Some(tensor) => Ok(tensor),
            None => Err(
                invalid_plan("missing `{}.weight`", Values::One(Value::Name(prefix.clone()))),
            ),
        }
    }

    /// The block scales of a linear layer.
    pub fn weight_scale(&self, prefix: &String) -> (tensor: Result<&TensorInfo, AegisError>)
        ensures
            match tensor {
                Ok(tensor) => self.spec_weight_scale(prefix) == Ok::<_, AegisError>(*tensor),
                Err(error) => self.spec_weight_scale(prefix) == Err::<TensorInfo, _>(error),
            },
    {
        match self.find(prefix.as_str(), ".weight_scale") {
            Some(tensor) => Ok(tensor),
            None => Err(
                invalid_plan("missing `{}.weight_scale`", Values::One(Value::Name(prefix.clone()))),
            ),
        }
    }
}

} // verus!
