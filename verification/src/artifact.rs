//! Compiled artifacts: validation of one artifact document per contract into
//! the form the matcher compares, and the set of artifacts produced by one
//! successful build profile.

use vstd::prelude::*;
use crate::bytecode::{decode_hex_str, hex_decode_chars};
use crate::schema::{Abi, Ast, Root};

verus! {

/// Why one artifact document could not be used. A parse failure makes the
/// whole profile's output unusable, but is recovered by skipping to the next
/// profile, never surfaced as the request's outcome.
#[derive(Clone, Copy, Debug, PartialEq, Eq, Structural)]
pub enum ArtifactParseError {
    /// The bytecode object is not well-formed hexadecimal.
    InvalidCreationBytecode,
    /// The deployed-bytecode object is not well-formed hexadecimal.
    InvalidDeployedBytecode,
}

/// Parsed build output for one contract. The identity key `id` is the
/// artifact's contract name (the file stem of its document); the bytecode
/// fields hold decoded bytes, ready for byte-for-byte comparison.
pub struct CompiledArtifact {
    pub id: String,
    pub creation_code: Vec<u8>,
    pub deployed_code: Vec<u8>,
    pub abi: Vec<Abi>,
    pub ast: Ast,
    pub compiler_name: String,
    pub compiler_version: String,
    pub creation_source_map: String,
    pub deployed_source_map: String,
}

/// Both bytecode objects of `root` are well-formed hexadecimal.
#[verifier::opaque]
pub open spec fn root_decodes(root: Root) -> bool {
    &&& hex_decode_chars(root.bytecode.object@) is Some
    &&& hex_decode_chars(root.deployed_bytecode.object@) is Some
}

impl CompiledArtifact {
    /// Validates one artifact document into a `CompiledArtifact` named `id`,
    /// decoding both bytecode objects; a document whose bytecode is not
    /// well-formed hexadecimal is rejected with the field that failed (the
    /// creation bytecode is checked first).
    pub fn from_root(id: String, root: Root) -> (r: Result<CompiledArtifact, ArtifactParseError>)
        ensures
            r is Ok <==> root_decodes(root),
            r matches Ok(a) ==> {
                &&& a.id == id
                &&& a.creation_code@ == hex_decode_chars(root.bytecode.object@)->0
                &&& a.deployed_code@ == hex_decode_chars(root.deployed_bytecode.object@)->0
                &&& a.abi == root.abi
                &&& a.ast == root.ast
                &&& a.compiler_name == root.metadata.language
                &&& a.compiler_version == root.metadata.compiler.version
                &&& a.creation_source_map == root.bytecode.source_map
                &&& a.deployed_source_map == root.deployed_bytecode.source_map
            },
            r matches Err(e) ==> {
                &&& (e == ArtifactParseError::InvalidCreationBytecode <==> hex_decode_chars(root.bytecode.object@) is None)
                &&& (e == ArtifactParseError::InvalidDeployedBytecode ==> hex_decode_chars(root.deployed_bytecode.object@) is None)
            },
            r matches Ok(a) ==> artifact_matches_doc(a, NamedDocument { name: id, root }),
    {
        proof {
            reveal(root_decodes);
            reveal(artifact_matches_doc);
        }
        let creation_code = match decode_hex_str(root.bytecode.object.as_str()) {
            Some(b) => b,
            None => {
                return Err(ArtifactParseError::InvalidCreationBytecode);
            },
        };
        let deployed_code = match decode_hex_str(root.deployed_bytecode.object.as_str()) {
            Some(b) => b,
            None => {
                return Err(ArtifactParseError::InvalidDeployedBytecode);
            },
        };
        Ok(CompiledArtifact {
            id,
            creation_code,
            deployed_code,
            abi: root.abi,
            ast: root.ast,
            compiler_name: root.metadata.language,
            compiler_version: root.metadata.compiler.version,
            creation_source_map: root.bytecode.source_map,
            deployed_source_map: root.deployed_bytecode.source_map,
        })
    }
}

/// One artifact document as the caller hands it in: the document itself and
/// the contract name that identifies it.
pub struct NamedDocument {
    pub name: String,
    pub root: Root,
}

/// The artifacts of one successful build profile, keyed by contract name.
pub struct ArtifactSet {
    pub items: Vec<CompiledArtifact>,
}

/// The parse error reported for a document that does not decode: the
/// creation bytecode is checked before the deployed bytecode.
pub open spec fn root_error(root: Root) -> ArtifactParseError {
    if hex_decode_chars(root.bytecode.object@) is None {
        ArtifactParseError::InvalidCreationBytecode
    } else {
        ArtifactParseError::InvalidDeployedBytecode
    }
}

/// The outcome of validating a document sequence: `Ok` when every document
/// decodes, else the error of the first document that does not.
pub open spec fn parse_outcome(docs: Seq<NamedDocument>) -> Result<(), ArtifactParseError>
    decreases docs.len(),
{
    if docs.len() == 0 {
        Ok(())
    } else if !root_decodes(docs[0].root) {
        Err(root_error(docs[0].root))
    } else {
        parse_outcome(docs.drop_first())
    }
}

/// Validation of a document sequence reaches past any prefix whose documents
/// all decode.
proof fn lemma_parse_outcome_skip(docs: Seq<NamedDocument>, i: int)
    requires
        0 <= i <= docs.len(),
        forall|j: int| 0 <= j < i ==> root_decodes((#[trigger] docs[j]).root),
    ensures
        parse_outcome(docs) == parse_outcome(docs.skip(i)),
    decreases i,
{
    if i == 0 {
        assert(docs.skip(0) =~= docs);
    } else {
        assert(root_decodes(docs[0].root));
        assert(docs.drop_first() =~= docs.skip(1));
        assert forall|j: int| 0 <= j < i - 1 implies root_decodes(
            (#[trigger] docs.skip(1)[j]).root,
        ) by {
            assert(docs.skip(1)[j] == docs[j + 1]);
        }
        lemma_parse_outcome_skip(docs.skip(1), i - 1);
        assert(docs.skip(1).skip(i - 1) =~= docs.skip(i));
    }
}

/// The validated artifact matching `doc`: same name, decoded bytecode.
#[verifier::opaque]
pub open spec fn artifact_matches_doc(a: CompiledArtifact, doc: NamedDocument) -> bool {
    &&& a.id == doc.name
    &&& a.creation_code@ == hex_decode_chars(doc.root.bytecode.object@)->0
    &&& a.deployed_code@ == hex_decode_chars(doc.root.deployed_bytecode.object@)->0
    &&& a.abi == doc.root.abi
    &&& a.ast == doc.root.ast
    &&& a.compiler_name == doc.root.metadata.language
    &&& a.compiler_version == doc.root.metadata.compiler.version
    &&& a.creation_source_map == doc.root.bytecode.source_map
    &&& a.deployed_source_map == doc.root.deployed_bytecode.source_map
}

impl ArtifactSet {
    /// Validates the artifact documents of one build profile into an
    /// `ArtifactSet`, in the given order. One bad document makes the whole
    /// profile's output unusable: the first failure is returned and the set
    /// discarded.
    #[verifier::rlimit(100)]
    #[verifier::loop_isolation(false)]
    pub fn from_documents(docs: Vec<NamedDocument>) -> (r: Result<ArtifactSet, ArtifactParseError>)
        ensures
            r is Ok <==> (forall|i: int| 0 <= i < docs@.len() ==> root_decodes(#[trigger] docs@[i].root)),
            r matches Ok(s) ==> {
                &&& s.items@.len() == docs@.len()
                &&& forall|i: int| 0 <= i < docs@.len()
                    ==> artifact_matches_doc(#[trigger] s.items@[i], docs@[i])
            },
            r matches Err(e) ==> parse_outcome(docs@) == Err::<(), ArtifactParseError>(e),
    {
        let mut items: Vec<CompiledArtifact> = Vec::new();
        let mut docs = docs;
        let ghost docs0 = docs@;
        let n = docs.len();
        // Reverse into a scratch vector so each document can be consumed from
        // the front in order, moving its fields rather than cloning them.
        let mut rev: Vec<NamedDocument> = Vec::new();
        while docs.len() > 0
            invariant
                docs@.len() + rev@.len() == n,
                n == docs0.len(),
                docs@ == docs0.take(docs@.len() as int),
                forall|j: int| 0 <= j < rev@.len() ==> #[trigger] rev@[j] == docs0[n - 1 - j],
            decreases docs@.len(),
        {
            let d = docs.pop().unwrap();
            rev.push(d);
        }
        let mut i: usize = 0;
        while i < n
            invariant
                0 <= i <= n,
                n == docs0.len(),
                rev@.len() == n - i,
                forall|j: int| 0 <= j < rev@.len() ==> #[trigger] rev@[j] == docs0[n - 1 - j],
                items@.len() == i,
                forall|j: int| 0 <= j < i ==> artifact_matches_doc(#[trigger] items@[j], docs0[j]),
                forall|j: int| 0 <= j < i ==> root_decodes((#[trigger] docs0[j]).root),
            decreases n - i,
        {
            let doc = rev.pop().unwrap();
            proof {
                assert(doc == docs0[i as int]);
            }
            let NamedDocument { name, root } = doc;
            match CompiledArtifact::from_root(name, root) {
                Ok(a) => {
                    proof {
                        assert(artifact_matches_doc(a, docs0[i as int]));
                    }
                    items.push(a);
                },
                Err(e) => {
                    proof {
                        lemma_parse_outcome_skip(docs0, i as int);
                        assert(docs0.skip(i as int).len() == n - i);
                        assert(docs0.skip(i as int)[0] == docs0[i as int]);
                        assert(e == root_error(docs0[i as int].root)) by {
                            reveal(root_decodes);
                        }
                        assert(parse_outcome(docs0.skip(i as int)) == Err::<
                            (),
                            ArtifactParseError,
                        >(e));
                    }
                    return Err(e);
                },
            }
            i = i + 1;
        }
        proof {
            assert(docs0.skip(n as int).len() == 0);
        }
        Ok(ArtifactSet { items })
    }
}

} // verus!
