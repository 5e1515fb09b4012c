use funnylauncher::download::{range_header, ChunkedDownload, DownloadError, PartialRangeIter, RangeError};
use funnylauncher::text::{decimal_string, signed_decimal_string};

#[test]
fn end_to_end_ranges_and_progress() {
    let ranges = PartialRangeIter::for_length(250000, 100000).unwrap().collect_ranges();
    assert_eq!(
        ranges,
        vec![
            ("bytes=0-99999".to_string(), 0),
            ("bytes=100000-199999".to_string(), 100000),
            ("bytes=200000-249999".to_string(), 200000),
        ]
    );
    let mut dl = ChunkedDownload::start(200, Some(250000), 100000).unwrap();
    let mut progress = Vec::new();
    let mut headers = Vec::new();
    while let Some(c) = dl.next_chunk() {
        progress.push((c.downloaded, c.total));
        headers.push(range_header(c.first, c.last));
    }
    assert_eq!(progress, vec![(0, 250000), (100000, 250000), (200000, 250000)]);
    assert_eq!(headers, vec!["bytes=0-99999", "bytes=100000-199999", "bytes=200000-249999"]);
}

#[test]
fn range_count_is_ceiling_and_spans_are_contiguous() {
    for (n, c) in [(1u64, 1u32), (10, 3), (9, 3), (1, 100), (1000, 7), (7, 1000)] {
        let mut it = PartialRangeIter::for_length(n, c).unwrap();
        let mut next_first = 0u64;
        let mut count = 0u64;
        while let Some((first, last)) = it.next_span() {
            assert_eq!(first, next_first);
            assert!(first <= last && last < n);
            assert!(last - first + 1 <= c as u64);
            next_first = last + 1;
            count += 1;
        }
        assert_eq!(next_first, n);
        assert_eq!(count, (n + c as u64 - 1) / c as u64);
    }
}

#[test]
fn zero_length_has_no_ranges() {
    let mut it = PartialRangeIter::for_length(0, 10).unwrap();
    assert_eq!(it.next(), None);
    let mut dl = ChunkedDownload::start(200, Some(0), 10).unwrap();
    assert_eq!(dl.next_chunk(), None);
}

#[test]
fn zero_chunk_size_is_refused() {
    assert_eq!(PartialRangeIter::new(0, 10, 0), Err(RangeError::ZeroBufferSize));
    assert_eq!(PartialRangeIter::for_length(10, 0), Err(RangeError::ZeroBufferSize));
    assert_eq!(ChunkedDownload::start(200, Some(10), 0), Err(DownloadError::InvalidChunkSize));
}

#[test]
fn explicit_bounds_iterator() {
    let mut it = PartialRangeIter::new(5, 9, 2).unwrap();
    assert_eq!(it.next(), Some(("bytes=5-6".to_string(), 5)));
    assert_eq!(it.next(), Some(("bytes=7-8".to_string(), 7)));
    assert_eq!(it.next(), Some(("bytes=9-9".to_string(), 9)));
    assert_eq!(it.next(), None);
    assert_eq!(it.next(), None);
}

#[test]
fn iterator_reaches_the_largest_offset() {
    let mut it = PartialRangeIter::new(u64::MAX - 2, u64::MAX, 2).unwrap();
    assert_eq!(it.next_span(), Some((u64::MAX - 2, u64::MAX - 1)));
    assert_eq!(it.next_span(), Some((u64::MAX, u64::MAX)));
    assert_eq!(it.next_span(), None);
}

#[test]
fn download_start_errors() {
    assert_eq!(ChunkedDownload::start(404, Some(10), 5), Err(DownloadError::ServerError(404)));
    assert_eq!(ChunkedDownload::start(200, None, 5), Err(DownloadError::ContentLengthMissing));
    assert_eq!(ChunkedDownload::check_response(206), Ok(()));
    assert_eq!(ChunkedDownload::check_response(500), Err(DownloadError::ServerError(500)));
    assert_eq!(DownloadError::ServerError(503).message(), "Server error: 503");
    assert_eq!(DownloadError::ContentLengthMissing.message(), "Content length is empty.");
    assert_eq!(
        DownloadError::InvalidChunkSize.message(),
        "invalid buffer_size, give a value greater than zero."
    );
}

#[test]
fn decimal_texts() {
    assert_eq!(decimal_string(0), "0");
    assert_eq!(decimal_string(1234567890), "1234567890");
    assert_eq!(decimal_string(u64::MAX), u64::MAX.to_string());
    assert_eq!(signed_decimal_string(i32::MIN), i32::MIN.to_string());
    assert_eq!(signed_decimal_string(42), "42");
}
