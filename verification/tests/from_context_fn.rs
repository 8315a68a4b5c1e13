use pollable_pipeline::from_context_fn::{ContextFn, FromContextFn};

struct ExpandingRanges;

impl ContextFn<usize> for ExpandingRanges {
    type Output = std::ops::Range<usize>;

    fn step(&mut self, context: &mut usize) -> Option<Self::Output> {
        let input = *context;
        *context += 1;
        Some(0..input)
    }
}

fn foo() -> (usize, usize) {
    let mut x = FromContextFn::new(0usize, ExpandingRanges);
    let result = bar(&mut x, 5);
    (result, x.into_context())
}

fn bar(seq: &mut FromContextFn<usize, ExpandingRanges>, limit: usize) -> usize {
    let mut result: usize = 0;
    let mut taken: usize = 0;
    'outer: loop {
        let range = match seq.next() {
            Some(r) => r,
            None => break,
        };
        for v in range {
            if taken == limit {
                break 'outer;
            }
            result ^= v;
            taken += 1;
        }
    }
    result
}

#[test]
fn test() {
    assert_eq!(foo(), (0, 4));
}
