//! Class-file conveniences for consumers of the decoded structure.

use vstd::prelude::*;

use crate::classfile::ClassFile;
use crate::classfile::ClassFileV;
use crate::classfile::MethodInfo;
use crate::classfile::MethodInfoV;
use crate::checker::sp_resolved_utf8;

verus! {

broadcast use vstd::seq::Seq::lemma_filter_push;

/// The method name `<init>` as bytes.
pub open spec fn nm_init() -> Seq<u8> {
    seq!['<' as u8, 'i' as u8, 'n' as u8, 'i' as u8, 't' as u8, '>' as u8]
}

/// Whether the method's name resolves to `<init>` in the given pool.
pub open spec fn sp_is_init(pool: Seq<crate::classfile::CpInfoV>, m: MethodInfoV) -> bool {
    sp_resolved_utf8(pool, m.name_index) == Some(nm_init())
}

/// The methods of the class named `<init>`, in declaration order.
pub open spec fn sp_init_methods(cf: ClassFileV) -> Seq<MethodInfoV> {
    cf.methods.filter(|m: MethodInfoV| sp_is_init(cf.constant_pool, m))
}

/// The `<init>`-named methods among the first `k` of the class.
pub open spec fn sp_init_methods_prefix(cf: ClassFileV, k: int) -> Seq<MethodInfoV> {
    cf.methods.subrange(0, k).filter(|m: MethodInfoV| sp_is_init(cf.constant_pool, m))
}

/// The models of a sequence of borrowed method records.
pub open spec fn refs_view(s: Seq<&MethodInfo>) -> Seq<MethodInfoV> {
    s.map_values(|m: &MethodInfo| m@)
}

/// Conveniences over one decoded class file.
pub trait JavaCfUtil {
    /// The decoded structure the conveniences read.
    spec fn model(&self) -> ClassFileV;

    /// The instance initialization methods: every method whose name
    /// resolves to `<init>`, in declaration order.
    fn instance_initialization_methods(&self) -> (r: Vec<&MethodInfo>)
        ensures
            refs_view(r@) == sp_init_methods(self.model()),
    ;
}

impl JavaCfUtil for ClassFile {
    open spec fn model(&self) -> ClassFileV {
        self@
    }

    #[verifier::loop_isolation(false)]
    fn instance_initialization_methods(&self) -> (r: Vec<&MethodInfo>)
        ensures
            refs_view(r@) == sp_init_methods(self@),
    {
        let ghost cf = self@;
        let n = self.methods.len();
        let mut out: Vec<&MethodInfo> = Vec::new();
        let mut i: usize = 0;
        proof {
            assert(cf.methods.subrange(0, 0) =~= Seq::<MethodInfoV>::empty());
            assert(refs_view(out@) =~= sp_init_methods_prefix(cf, 0));
        }
        while i < n
            invariant
                i <= n,
                n == self.methods.len(),
                refs_view(out@) == sp_init_methods_prefix(cf, i as int),
            decreases n - i,
        {
            let ghost prefix = cf.methods.subrange(0, i as int);
            let ghost next_prefix = cf.methods.subrange(0, i + 1);
            proof {
                assert(next_prefix =~= prefix.push(cf.methods[i as int]));
                assert(next_prefix.drop_last() =~= prefix);
                assert(next_prefix.last() == cf.methods[i as int]);
            }
            let name = crate::classfile::RetrievalApiVector::element_at(
                &self.constant_pool,
                self.methods[i].name_index,
            );
            let is_init: bool = match name {
                Some(entry) => match &entry.info {
                    crate::cpinfo::CpInfoType::ConstantUtf8 { bytes, .. } => {
                        let lit: Vec<u8> = vec![
                            '<' as u8,
                            'i' as u8,
                            'n' as u8,
                            'i' as u8,
                            't' as u8,
                            '>' as u8,
                        ];
                        proof {
                            assert(lit@ =~= nm_init());
                        }
                        crate::attrnames::name_eq(bytes, &lit)
                    },
                    _ => false,
                },
                None => false,
            };
            proof {
                assert(is_init == sp_is_init(cf.constant_pool, cf.methods[i as int]));
            }
            let ghost before = refs_view(out@);
            if is_init {
                out.push(&self.methods[i]);
                proof {
                    assert(refs_view(out@) =~= before.push(cf.methods[i as int]));
                    assert(sp_init_methods_prefix(cf, i + 1) =~= sp_init_methods_prefix(
                        cf,
                        i as int,
                    ).push(cf.methods[i as int]));
                    assert(refs_view(out@) =~= sp_init_methods_prefix(cf, i + 1));
                }
            } else {
                proof {
                    assert(sp_init_methods_prefix(cf, i + 1) =~= sp_init_methods_prefix(
                        cf,
                        i as int,
                    ));
                }
            }
            i = i + 1;
        }
        proof {
            assert(cf.methods.subrange(0, n as int) =~= cf.methods);
            assert(sp_init_methods_prefix(cf, n as int) == sp_init_methods(cf));
        }
        out
    }
}

} // verus!
