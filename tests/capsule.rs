use any_ref::{
    build, new_any_ref, AnyRef, LifetimeDowncast, Picks, Reference, ReturnType, Span,
};
use std::rc::Rc;

struct Count;

impl ReturnType for Count {
    type Target = usize;
}

impl LifetimeDowncast for Count {
    fn lifetime_downcast(from: &usize) -> &usize {
        from
    }
}

#[test]
fn picks_survive_a_move_out_of_scope() {
    let moved_ar;
    {
        let num: Box<Vec<u16>> = Box::new(vec![1, 2, 3, 4]);
        let ar = AnyRef::<Picks<u16>, _>::new(num, |_x: &Box<Vec<u16>>| vec![0, 1, 2, 3]);
        moved_ar = ar;
    }
    assert_eq!(moved_ar.picked(), Some(vec![&1, &2, &3, &4]));
}

#[test]
fn span_reads_the_prefix_of_a_string() {
    let moved_ar;
    {
        let s: Vec<u8> = "hello world".as_bytes().to_vec();
        let ar = AnyRef::<Reference<u8>, _>::new(s, |_x: &Vec<u8>| Span::new(0, 5));
        moved_ar = ar;
    }
    assert_eq!(moved_ar.as_slice(), Some(&b"hello"[..]));
}

#[test]
fn new_any_ref_picks_the_first_element() {
    let v: Vec<i32> = vec![1, 2, 3, 4, 5];
    let ar = new_any_ref::<Picks<i32>, _, _>(v, |_x: &Vec<i32>| vec![0]);
    assert_eq!(ar.picked(), Some(vec![&1]));
    assert_eq!(ar.get(), &vec![0]);
}

#[test]
fn derivation_sees_the_owner() {
    let v: Vec<i32> = vec![7, 8, 9];
    let ar = AnyRef::<Count, _>::new(v, |x: &Vec<i32>| x.len());
    assert_eq!(*ar.get(), 3);
    assert_eq!(ar.owner(), &vec![7, 8, 9]);
}

#[test]
fn get_narrows_without_moving_data() {
    let v: Vec<u8> = vec![1, 2, 3, 4];
    let ar = AnyRef::<Reference<u8>, _>::new(v, |_x: &Vec<u8>| Span::new(1, 3));
    let long: &Span = ar.get();
    let short: &Span = <Reference<u8> as LifetimeDowncast>::lifetime_downcast(long);
    assert!(std::ptr::eq(long, short));
    assert_eq!(*short, Span::new(1, 3));
    assert_eq!(ar.as_slice(), Some(&[2u8, 3][..]));
}

#[test]
fn map_moves_to_another_shape_of_the_same_owner() {
    let string: Vec<u8> = "hello world".as_bytes().to_vec();
    let ar: AnyRef<Reference<u8>, Vec<u8>> =
        AnyRef::new(string, |s: &Vec<u8>| Span::new(6, s.len()));
    assert_eq!(ar.as_slice(), Some(&b"world"[..]));
    let ar: AnyRef<Picks<u8>, Vec<u8>> = ar.map(|world: Span, string: &Vec<u8>| {
        assert_eq!(&string[world.start..world.end], b"world");
        assert_eq!(&string[..], b"hello world");
        vec![0, 4]
    });
    assert_eq!(ar.picked(), Some(vec![&b'h', &b'o']));
}

#[test]
fn map_preserves_the_owner() {
    let owner: Rc<Vec<u8>> = Rc::new(vec![1, 2, 3]);
    let ar = AnyRef::<Reference<u8>, _>::new(owner.clone(), |_o: &Rc<Vec<u8>>| Span::new(0, 1));
    let mapped = ar.map::<Count, _>(|sp: Span, _o: &Rc<Vec<u8>>| sp.len());
    assert_eq!(*mapped.get(), 1);
    let back = mapped.into_inner();
    assert!(Rc::ptr_eq(&back, &owner));
}

#[test]
fn into_inner_returns_the_owner() {
    let v: Vec<u8> = vec![4, 5];
    let ar = AnyRef::<Reference<u8>, _>::new(v, |_x: &Vec<u8>| Span::new(0, 2));
    assert_eq!(ar.into_inner(), vec![4, 5]);
}

#[test]
fn clone_outlives_the_original() {
    let owner: Rc<Vec<u8>> = Rc::new(vec![10, 20, 30, 40]);
    let copy;
    {
        let original = AnyRef::<Reference<u8>, _>::new(owner.clone(), |_o: &Rc<Vec<u8>>| {
            Span::new(1, 3)
        });
        copy = original.clone();
        assert!(Rc::ptr_eq(copy.owner(), original.owner()));
    }
    assert_eq!(copy.as_slice(), Some(&[20u8, 30][..]));
    assert!(Rc::ptr_eq(copy.owner(), &owner));
}

#[test]
fn build_splits_at_the_middle() {
    let bytes: Rc<[u8]> = Rc::from(vec![1u8, 2, 3, 4, 5, 6].into_boxed_slice());
    let (first_half, second_half) = build(bytes.clone(), |array: &Rc<[u8]>, mut builder| {
        let split_at = array.len() / 2;
        (
            builder.build::<Reference<u8>>(Span::new(0, split_at)),
            builder.build::<Reference<u8>>(Span::new(split_at, array.len())),
        )
    });
    assert_eq!(first_half.as_slice(), Some(&[1u8, 2, 3][..]));
    assert_eq!(second_half.as_slice(), Some(&[4u8, 5, 6][..]));
}

#[test]
fn build_order_and_lifetimes_are_independent() {
    let bytes: Rc<[u8]> = Rc::from(vec![1u8, 2, 3, 4, 5, 6].into_boxed_slice());
    let (second_half, first_half) = build(bytes.clone(), |array: &Rc<[u8]>, mut builder| {
        let split_at = array.len() / 2;
        let second = builder.build::<Reference<u8>>(Span::new(split_at, array.len()));
        let first = builder.build::<Reference<u8>>(Span::new(0, split_at));
        (second, first)
    });
    drop(bytes);
    drop(second_half.clone());
    assert_eq!(first_half.as_slice(), Some(&[1u8, 2, 3][..]));
    drop(first_half);
    assert_eq!(second_half.as_slice(), Some(&[4u8, 5, 6][..]));
}

#[test]
fn map_build_derives_two_capsules() {
    let string: Rc<Vec<u8>> = Rc::new("hello world".as_bytes().to_vec());
    let ar: AnyRef<Reference<u8>, _> = AnyRef::new(string, |s: &Rc<Vec<u8>>| Span::new(6, s.len()));
    assert_eq!(ar.as_slice(), Some(&b"world"[..]));
    let (wo, world) = ar.map_build(|value: Span, mut builder| {
        (
            builder.build::<Reference<u8>>(Span::new(value.start, value.start + 2)),
            builder.build::<Picks<u8>>(vec![value.start, value.end - 1]),
        )
    });
    assert_eq!(wo.as_slice(), Some(&b"wo"[..]));
    assert_eq!(world.picked(), Some(vec![&b'w', &b'd']));
    assert!(Rc::ptr_eq(wo.owner(), world.owner()));
}

#[test]
fn span_outside_the_target_is_refused() {
    let v: Vec<u8> = vec![1, 2, 3];
    let past_end = AnyRef::<Reference<u8>, _>::new(v, |_x: &Vec<u8>| Span::new(2, 4));
    assert_eq!(past_end.as_slice(), None);
    let w: Vec<u8> = vec![1, 2, 3];
    let reversed = AnyRef::<Reference<u8>, _>::new(w, |_x: &Vec<u8>| Span::new(2, 1));
    assert_eq!(reversed.as_slice(), None);
}

#[test]
fn empty_span_reads_nothing() {
    let v: Vec<u8> = vec![];
    let ar = AnyRef::<Reference<u8>, _>::new(v, |_x: &Vec<u8>| Span::prefix(0));
    assert_eq!(ar.as_slice(), Some(&[][..]));
}

#[test]
fn pick_outside_the_target_is_refused() {
    let v: Vec<u8> = vec![1, 2, 3];
    let ar = AnyRef::<Picks<u8>, _>::new(v, |_x: &Vec<u8>| vec![0, 3]);
    assert_eq!(ar.picked(), None);
}

#[test]
fn span_length() {
    assert_eq!(Span::new(2, 7).len(), 5);
    assert_eq!(Span::new(7, 2).len(), 0);
    assert_eq!(Span::prefix(4), Span::new(0, 4));
}

#[test]
fn string_owner_is_viewed_by_bytes() {
    let moved_ar;
    {
        let s = "hello world".to_string();
        let ar = AnyRef::<Reference<u8>, _>::new(s, |_x: &String| Span::prefix(5));
        moved_ar = ar;
    }
    assert_eq!(moved_ar.as_slice(), Some(&b"hello"[..]));
}

#[test]
fn shared_string_map_build() {
    let string = Rc::new("hello world".to_string());
    let ar: AnyRef<Reference<u8>, _> =
        AnyRef::new(string.clone(), |s: &Rc<String>| Span::new(6, s.len()));
    assert_eq!(ar.as_slice(), Some(&b"world"[..]));
    let (wo, bytes) = ar.map_build(|value: Span, mut builder| {
        (
            builder.build::<Reference<u8>>(Span::new(value.start, value.start + 2)),
            builder.build::<Reference<u8>>(value),
        )
    });
    assert_eq!(wo.as_slice(), Some(&b"wo"[..]));
    assert_eq!(bytes.as_slice(), Some(&b"world"[..]));
    assert!(Rc::ptr_eq(bytes.owner(), &string));
}

#[test]
fn arc_owner_clone_shares_the_target() {
    let owner = std::sync::Arc::new(vec![5u32, 6, 7]);
    let ar = AnyRef::<Picks<u32>, _>::new(owner.clone(), |_o: &std::sync::Arc<Vec<u32>>| vec![2, 0]);
    let copy = ar.clone();
    drop(ar);
    assert_eq!(copy.picked(), Some(vec![&7, &5]));
    assert!(std::sync::Arc::ptr_eq(copy.owner(), &owner));
}

#[test]
fn map_to_the_prefix_of_the_owner() {
    let string = "hello world".to_string();
    let ar: AnyRef<Reference<u8>, String> =
        AnyRef::new(string, |s: &String| Span::new(6, s.len()));
    assert_eq!(ar.as_slice(), Some(&b"world"[..]));
    let ar: AnyRef<Reference<u8>, String> = ar.map(|world: Span, string: &String| {
        assert_eq!(&string.as_bytes()[world.start..world.end], b"world");
        assert_eq!(string, "hello world");
        Span::prefix(5)
    });
    assert_eq!(ar.as_slice(), Some(&b"hello"[..]));
}

#[test]
fn built_capsule_outlives_its_sibling_and_the_caller_handle() {
    let bytes: Rc<[u8]> = Rc::from(vec![1u8, 2, 3, 4, 5, 6].into_boxed_slice());
    let (a, b) = build(bytes.clone(), |arr: &Rc<[u8]>, mut bl| {
        (
            bl.build::<Reference<u8>>(Span::new(0, 3)),
            bl.build::<Reference<u8>>(Span::new(3, arr.len())),
        )
    });
    drop(a);
    drop(bytes);
    assert_eq!(b.as_slice(), Some(&[4u8, 5, 6][..]));
}
